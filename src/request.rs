//! Options and builders of list, create and update requests.
use vstd::prelude::*;
use crate::error::Error;
use crate::text::{decimal, decimal_text};

verus! {

/// Largest page size a list request may ask for.
pub const MAX_LIMIT: u32 = 1000;

/// Order of a sorted list.
#[derive(Debug, Clone, Copy, PartialEq, Eq, Structural)]
pub enum SortOrder {
    /// Ascending.
    Asc,
    /// Descending.
    Desc,
}

/// The query text of a sort order.
pub open spec fn sort_order_text(o: SortOrder) -> Seq<char> {
    match o {
        SortOrder::Asc => "asc"@,
        SortOrder::Desc => "desc"@,
    }
}

/// Options of a list request.
#[derive(Debug, Clone)]
pub struct ListOptions {
    /// Page size, from 1 to 1000.
    pub limit: Option<u32>,
    /// Page number.
    pub page: Option<u32>,
    /// Number of items to skip.
    pub offset: Option<u32>,
    /// Cursor of cursor-based pagination.
    pub cursor: Option<String>,
    /// Field to sort by.
    pub sort_by: Option<String>,
    /// Order of the sort.
    pub sort_order: Option<SortOrder>,
}

/// The query parameter that an optional number gives, if any.
pub open spec fn number_param(name: Seq<char>, v: Option<u32>) -> Seq<(Seq<char>, Seq<char>)> {
    match v {
        Some(n) => seq![(name, decimal_text(n as nat))],
        None => seq![],
    }
}

/// The query parameter that an optional text gives, if any.
pub open spec fn text_param(name: Seq<char>, v: Option<String>) -> Seq<(Seq<char>, Seq<char>)> {
    match v {
        Some(s) => seq![(name, s@)],
        None => seq![],
    }
}

/// The query text that identifies a request: `stateset-`, the time in
/// milliseconds, `-` and a unique suffix.
pub open spec fn request_id_text(millis: u64, suffix: Seq<char>) -> Seq<char> {
    "stateset-"@ + decimal_text(millis as nat) + "-"@ + suffix
}

/// The value of the `X-Request-ID` header of a request sent at `millis`.
pub fn request_id(millis: u64, suffix: &str) -> (r: String)
    ensures
        r@ == request_id_text(millis, suffix@),
{
    let r = "stateset-".to_owned().concat(decimal(millis).as_str()).concat("-").concat(suffix);
    assert(r@ =~= request_id_text(millis, suffix@));
    r
}

/// The texts of a list of pairs of strings.
pub open spec fn pair_texts(v: Seq<(String, String)>) -> Seq<(Seq<char>, Seq<char>)> {
    v.map_values(|p: (String, String)| (p.0@, p.1@))
}

impl ListOptions {
    /// The query parameters of the options, in this order: `limit`, `page`,
    /// `offset`, `cursor`, `sort_by`, `sort_order`, each when set.
    pub open spec fn spec_query_params(&self) -> Seq<(Seq<char>, Seq<char>)> {
        number_param("limit"@, self.limit) + number_param("page"@, self.page)
            + number_param("offset"@, self.offset) + text_param("cursor"@, self.cursor)
            + text_param("sort_by"@, self.sort_by) + match self.sort_order {
                Some(o) => seq![("sort_order"@, sort_order_text(o))],
                None => seq![],
            }
    }

    /// Whether the options may be sent: not both a cursor and a page, and no
    /// sort order without a sort field.
    pub open spec fn spec_valid(&self) -> bool {
        !(self.cursor is Some && self.page is Some) && !(self.sort_order is Some && self.sort_by is None)
    }

    /// The message of the validation error that the options give, if any.
    pub open spec fn spec_validation_message(&self) -> Option<Seq<char>> {
        if self.cursor is Some && self.page is Some {
            Some("Cannot use both cursor and page pagination simultaneously"@)
        } else if self.sort_order is Some && self.sort_by is None {
            Some("sort_order requires sort_by to be specified"@)
        } else {
            None
        }
    }

    /// Whether every option is unset.
    pub open spec fn is_empty(&self) -> bool {
        self.limit is None && self.page is None && self.offset is None && self.cursor is None
            && self.sort_by is None && self.sort_order is None
    }

    /// No option set.
    pub fn new() -> (r: ListOptions)
        ensures
            r.is_empty(),
    {
        ListOptions { limit: None, page: None, offset: None, cursor: None, sort_by: None, sort_order: None }
    }

    /// Sets the page size, which must be from 1 to 1000.
    pub fn limit(self, limit: u32) -> (r: Result<ListOptions, Error>)
        ensures
            limit == 0 ==> (r matches Err(Error::Validation { message, field: Some(f), code: None })
                && message@ == "Limit must be greater than 0"@ && f@ == "limit"@),
            limit > MAX_LIMIT ==> (r matches Err(Error::Validation { message, field: Some(f), code: None })
                && message@ == "Limit cannot exceed 1000"@ && f@ == "limit"@),
            1 <= limit <= MAX_LIMIT ==> r == Ok::<ListOptions, Error>(ListOptions { limit: Some(limit), ..self }),
    {
        if limit == 0 {
            return Err(Error::validation_field("Limit must be greater than 0", "limit"));
        }
        if limit > MAX_LIMIT {
            return Err(Error::validation_field("Limit cannot exceed 1000", "limit"));
        }
        Ok(ListOptions { limit: Some(limit), ..self })
    }

    /// Sets the page number.
    pub fn page(self, page: u32) -> (r: ListOptions)
        ensures
            r == (ListOptions { page: Some(page), ..self }),
    {
        ListOptions { page: Some(page), ..self }
    }

    /// Sets the number of items to skip.
    pub fn offset(self, offset: u32) -> (r: ListOptions)
        ensures
            r == (ListOptions { offset: Some(offset), ..self }),
    {
        ListOptions { offset: Some(offset), ..self }
    }

    /// Sets the cursor.
    pub fn cursor(self, cursor: &str) -> (r: ListOptions)
        ensures
            r.cursor matches Some(c) && c@ == cursor@,
            r == (ListOptions { cursor: r.cursor, ..self }),
    {
        ListOptions { cursor: Some(cursor.to_owned()), ..self }
    }

    /// Sets the field to sort by.
    pub fn sort_by(self, field: &str) -> (r: ListOptions)
        ensures
            r.sort_by matches Some(f) && f@ == field@,
            r == (ListOptions { sort_by: r.sort_by, ..self }),
    {
        ListOptions { sort_by: Some(field.to_owned()), ..self }
    }

    /// Sets the order of the sort.
    pub fn sort_order(self, order: SortOrder) -> (r: ListOptions)
        ensures
            r == (ListOptions { sort_order: Some(order), ..self }),
    {
        ListOptions { sort_order: Some(order), ..self }
    }

    /// The query parameters of the options, as name and value pairs.
    pub fn to_query_params(&self) -> (r: Vec<(String, String)>)
        ensures
            pair_texts(r@) == self.spec_query_params(),
    {
        let mut params: Vec<(String, String)> = Vec::new();
        let ghost mut want: Seq<(Seq<char>, Seq<char>)> = seq![];
        match self.limit {
            Some(n) => params.push(("limit".to_owned(), decimal(n as u64))),
            None => {},
        }
        proof { want = number_param("limit"@, self.limit); }
        assert(pair_texts(params@) =~= want);
        match self.page {
            Some(n) => params.push(("page".to_owned(), decimal(n as u64))),
            None => {},
        }
        proof { want = want + number_param("page"@, self.page); }
        assert(pair_texts(params@) =~= want);
        match self.offset {
            Some(n) => params.push(("offset".to_owned(), decimal(n as u64))),
            None => {},
        }
        proof { want = want + number_param("offset"@, self.offset); }
        assert(pair_texts(params@) =~= want);
        match &self.cursor {
            Some(c) => params.push(("cursor".to_owned(), c.clone())),
            None => {},
        }
        proof { want = want + text_param("cursor"@, self.cursor); }
        assert(pair_texts(params@) =~= want);
        match &self.sort_by {
            Some(f) => params.push(("sort_by".to_owned(), f.clone())),
            None => {},
        }
        proof { want = want + text_param("sort_by"@, self.sort_by); }
        assert(pair_texts(params@) =~= want);
        match self.sort_order {
            Some(SortOrder::Asc) => params.push(("sort_order".to_owned(), "asc".to_owned())),
            Some(SortOrder::Desc) => params.push(("sort_order".to_owned(), "desc".to_owned())),
            None => {},
        }
        assert(pair_texts(params@) =~= self.spec_query_params());
        params
    }

    /// Checks that the options may be sent.
    pub fn validate(&self) -> (r: Result<(), Error>)
        ensures
            r is Ok <==> self.spec_valid(),
            match self.spec_validation_message() {
                None => r is Ok,
                Some(m) => r matches Err(Error::Validation { message, field: None, code: None }) && message@ == m,
            },
    {
        if self.cursor.is_some() && self.page.is_some() {
            return Err(Error::validation("Cannot use both cursor and page pagination simultaneously"));
        }
        if self.sort_order.is_some() && self.sort_by.is_none() {
            return Err(Error::validation("sort_order requires sort_by to be specified"));
        }
        Ok(())
    }
}

impl Default for ListOptions {
    fn default() -> (r: ListOptions)
        ensures
            r.is_empty(),
    {
        ListOptions::new()
    }
}

/// Builder of a list request with options and filters of type `F`.
#[derive(Debug, Clone)]
pub struct ListRequestBuilder<F> {
    /// The options so far.
    pub options: ListOptions,
    /// The filters, once set.
    pub filters: Option<F>,
}

impl<F: Default> ListRequestBuilder<F> {
    /// No options and no filters.
    pub fn new() -> (r: ListRequestBuilder<F>)
        ensures
            r.options.is_empty(),
            r.filters is None,
    {
        ListRequestBuilder { options: ListOptions::new(), filters: None }
    }

    /// Sets the page size; a size outside 1 to 1000 is ignored.
    pub fn limit(self, limit: u32) -> (r: ListRequestBuilder<F>)
        ensures
            r == if 1 <= limit <= MAX_LIMIT {
                ListRequestBuilder { options: ListOptions { limit: Some(limit), ..self.options }, ..self }
            } else {
                self
            },
    {
        if 1 <= limit && limit <= MAX_LIMIT {
            ListRequestBuilder { options: ListOptions { limit: Some(limit), ..self.options }, ..self }
        } else {
            self
        }
    }

    /// Sets the page number.
    pub fn page(self, page: u32) -> (r: ListRequestBuilder<F>)
        ensures
            r == (ListRequestBuilder { options: ListOptions { page: Some(page), ..self.options }, ..self }),
    {
        ListRequestBuilder { options: self.options.page(page), filters: self.filters }
    }

    /// Sets the cursor.
    pub fn cursor(self, cursor: &str) -> (r: ListRequestBuilder<F>)
        ensures
            r.options.cursor matches Some(c) && c@ == cursor@,
            r == (ListRequestBuilder { options: ListOptions { cursor: r.options.cursor, ..self.options }, ..self }),
    {
        ListRequestBuilder { options: self.options.cursor(cursor), filters: self.filters }
    }

    /// Sets the field and the order of the sort.
    pub fn sort(self, field: &str, order: SortOrder) -> (r: ListRequestBuilder<F>)
        ensures
            r.options.sort_by matches Some(f) && f@ == field@,
            r == (ListRequestBuilder {
                options: ListOptions { sort_by: r.options.sort_by, sort_order: Some(order), ..self.options },
                ..self
            }),
    {
        ListRequestBuilder { options: self.options.sort_by(field).sort_order(order), filters: self.filters }
    }

    /// Sets the number of items to skip.
    pub fn offset(self, offset: u32) -> (r: ListRequestBuilder<F>)
        ensures
            r == (ListRequestBuilder { options: ListOptions { offset: Some(offset), ..self.options }, ..self }),
    {
        ListRequestBuilder { options: self.options.offset(offset), filters: self.filters }
    }

    /// The same as `sort`.
    pub fn sort_by(self, field: &str, order: SortOrder) -> (r: ListRequestBuilder<F>)
        ensures
            r.options.sort_by matches Some(f) && f@ == field@,
            r == (ListRequestBuilder {
                options: ListOptions { sort_by: r.options.sort_by, sort_order: Some(order), ..self.options },
                ..self
            }),
    {
        self.sort(field, order)
    }

    /// Sets the filters.
    pub fn with_filters(self, filters: F) -> (r: ListRequestBuilder<F>)
        ensures
            r == (ListRequestBuilder { filters: Some(filters), ..self }),
    {
        ListRequestBuilder { options: self.options, filters: Some(filters) }
    }

    /// The filters, for change in place; default filters are set first when
    /// there are none.
    pub fn filters_mut(&mut self) -> (r: &mut F)
        ensures
            old(self).filters matches Some(f) ==> *r == f,
            final(self).options == old(self).options,
            final(self).filters == Some(*final(r)),
    {
        let current = self.filters.take();
        let value = match current {
            Some(f) => f,
            None => F::default(),
        };
        self.filters.insert(value)
    }

    /// The filters, if set.
    pub fn filters(&self) -> (r: Option<&F>)
        ensures
            match self.filters {
                Some(f) => r == Some(&f),
                None => r is None,
            },
    {
        match &self.filters {
            Some(f) => Some(f),
            None => None,
        }
    }

    /// The options and the filters (default filters when none were set), or
    /// the validation error of the options.
    pub fn build(self) -> (r: Result<(ListOptions, F), Error>)
        ensures
            r is Ok <==> self.options.spec_valid(),
            r matches Ok((o, f)) ==> o == self.options && (self.filters matches Some(g) ==> f == g),
            match self.options.spec_validation_message() {
                None => r is Ok,
                Some(m) => r matches Err(Error::Validation { message, field: None, code: None }) && message@ == m,
            },
    {
        match self.options.validate() {
            Err(e) => Err(e),
            Ok(()) => {
                let filters = match self.filters {
                    Some(f) => f,
                    None => F::default(),
                };
                Ok((self.options, filters))
            },
        }
    }
}

/// Builder of a create request.
#[derive(Debug, Clone)]
pub struct CreateRequestBuilder<T> {
    /// The data to create, once set.
    pub data: Option<T>,
    /// Whether the data is checked before it is sent.
    pub validate_before_send: bool,
}

impl<T> CreateRequestBuilder<T> {
    /// No data; checking on.
    pub fn new() -> (r: CreateRequestBuilder<T>)
        ensures
            r.data is None,
            r.validate_before_send,
    {
        CreateRequestBuilder { data: None, validate_before_send: true }
    }

    /// Sets the data.
    pub fn data(self, data: T) -> (r: CreateRequestBuilder<T>)
        ensures
            r == (CreateRequestBuilder { data: Some(data), ..self }),
    {
        CreateRequestBuilder { data: Some(data), validate_before_send: self.validate_before_send }
    }

    /// Switches checking before sending.
    pub fn validate(self, enabled: bool) -> (r: CreateRequestBuilder<T>)
        ensures
            r == (CreateRequestBuilder { validate_before_send: enabled, ..self }),
    {
        CreateRequestBuilder { data: self.data, validate_before_send: enabled }
    }

    /// The data, or a validation error when none was set.
    pub fn build(self) -> (r: Result<T, Error>)
        ensures
            match self.data {
                Some(d) => r == Ok::<T, Error>(d),
                None => r matches Err(Error::Validation { message, field: None, code: None })
                    && message@ == "Request data is required"@,
            },
    {
        match self.data {
            Some(d) => Ok(d),
            None => Err(Error::validation("Request data is required")),
        }
    }
}

/// How an update is merged into the stored resource.
#[derive(Debug, Clone, Copy, PartialEq, Eq, Structural)]
pub enum MergeStrategy {
    /// Replace all fields.
    Replace,
    /// Merge only the fields that are not null.
    Merge,
    /// PATCH semantics.
    Patch,
}

impl Default for MergeStrategy {
    fn default() -> (r: MergeStrategy)
        ensures
            r == MergeStrategy::Merge,
    {
        MergeStrategy::Merge
    }
}

/// Builder of an update request.
#[derive(Debug, Clone)]
pub struct UpdateRequestBuilder<T> {
    /// The data to update, once set.
    pub data: Option<T>,
    /// How the update is merged.
    pub merge_strategy: MergeStrategy,
}

impl<T> UpdateRequestBuilder<T> {
    /// No data; merging.
    pub fn new() -> (r: UpdateRequestBuilder<T>)
        ensures
            r.data is None,
            r.merge_strategy == MergeStrategy::Merge,
    {
        UpdateRequestBuilder { data: None, merge_strategy: MergeStrategy::Merge }
    }

    /// Sets the data.
    pub fn data(self, data: T) -> (r: UpdateRequestBuilder<T>)
        ensures
            r == (UpdateRequestBuilder { data: Some(data), ..self }),
    {
        UpdateRequestBuilder { data: Some(data), merge_strategy: self.merge_strategy }
    }

    /// Sets how the update is merged.
    pub fn merge_strategy(self, strategy: MergeStrategy) -> (r: UpdateRequestBuilder<T>)
        ensures
            r == (UpdateRequestBuilder { merge_strategy: strategy, ..self }),
    {
        UpdateRequestBuilder { data: self.data, merge_strategy: strategy }
    }

    /// The data and the strategy, or a validation error when no data was set.
    pub fn build(self) -> (r: Result<(T, MergeStrategy), Error>)
        ensures
            match self.data {
                Some(d) => r == Ok::<(T, MergeStrategy), Error>((d, self.merge_strategy)),
                None => r matches Err(Error::Validation { message, field: None, code: None })
                    && message@ == "Update data is required"@,
            },
    {
        match self.data {
            Some(d) => Ok((d, self.merge_strategy)),
            None => Err(Error::validation("Update data is required")),
        }
    }
}

} // verus!
