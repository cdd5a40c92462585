use stateset_core::error::Error;
use stateset_core::request::{request_id, CreateRequestBuilder, ListOptions, ListRequestBuilder, MergeStrategy, SortOrder, UpdateRequestBuilder};

#[test]
fn test_list_options_validation() {
    let options = ListOptions::new();
    assert!(options.validate().is_ok());

    // Test limit validation
    let result = ListOptions::new().limit(0);
    assert!(result.is_err());

    let result = ListOptions::new().limit(1001);
    assert!(result.is_err());

    let result = ListOptions::new().limit(100);
    assert!(result.is_ok());
}

#[test]
fn test_conflicting_pagination() {
    let options = ListOptions::new().page(1).cursor(&"test".to_string());

    assert!(options.validate().is_err());
}

#[test]
fn test_sort_validation() {
    let options = ListOptions::new().sort_order(SortOrder::Asc);

    assert!(options.validate().is_err());

    let options = ListOptions::new().sort_by("created_at").sort_order(SortOrder::Desc);

    assert!(options.validate().is_ok());
}

#[test]
fn test_query_params_conversion() {
    let options = ListOptions::new()
        .limit(50)
        .unwrap()
        .page(2)
        .sort_by("name")
        .sort_order(SortOrder::Asc);

    let params = options.to_query_params();
    let get = |k: &str| params.iter().find(|(n, _)| n == k).map(|(_, v)| v.clone());

    assert_eq!(get("limit"), Some("50".to_string()));
    assert_eq!(get("page"), Some("2".to_string()));
    assert_eq!(get("sort_by"), Some("name".to_string()));
    assert_eq!(get("sort_order"), Some("asc".to_string()));
}

#[derive(Default, Clone)]
struct TestFilters {
    status: Option<String>,
}

#[test]
fn test_list_request_builder() {
    let builder = ListRequestBuilder::<TestFilters>::new()
        .limit(25)
        .page(1)
        .sort(&"created_at".to_string(), SortOrder::Desc);

    let result = builder.build();
    assert!(result.is_ok());

    let (options, _filters) = result.unwrap();
    assert_eq!(options.limit, Some(25));
    assert_eq!(options.page, Some(1));
}

#[test]
fn test_create_request_builder() {
    let builder = CreateRequestBuilder::new().data("test data".to_string());

    let result = builder.build();
    assert!(result.is_ok());
    assert_eq!(result.unwrap(), "test data");

    // Test missing data
    let builder = CreateRequestBuilder::<String>::new();
    let result = builder.build();
    assert!(result.is_err());
}

#[test]
fn test_update_request_builder() {
    let builder = UpdateRequestBuilder::new()
        .data("updated data".to_string())
        .merge_strategy(MergeStrategy::Patch);

    let result = builder.build();
    assert!(result.is_ok());

    let (data, strategy) = result.unwrap();
    assert_eq!(data, "updated data");
    assert!(matches!(strategy, MergeStrategy::Patch));
}

#[test]
fn limit_errors_name_the_field() {
    match ListOptions::new().limit(0) {
        Err(Error::Validation { message, field, .. }) => {
            assert_eq!(message, "Limit must be greater than 0");
            assert_eq!(field, Some("limit".to_string()));
        }
        _ => panic!("expected a validation error"),
    }
    match ListOptions::new().limit(1001) {
        Err(Error::Validation { message, .. }) => assert_eq!(message, "Limit cannot exceed 1000"),
        _ => panic!("expected a validation error"),
    }
    assert_eq!(ListOptions::new().limit(1000).unwrap().limit, Some(1000));
    assert_eq!(ListOptions::new().limit(1).unwrap().limit, Some(1));
}

#[test]
fn query_params_keep_their_order() {
    let options = ListOptions::new()
        .limit(10)
        .unwrap()
        .offset(30)
        .cursor("abc")
        .sort_by("name")
        .sort_order(SortOrder::Desc);
    let params = options.to_query_params();
    let expected: Vec<(String, String)> = vec![
        ("limit".to_string(), "10".to_string()),
        ("offset".to_string(), "30".to_string()),
        ("cursor".to_string(), "abc".to_string()),
        ("sort_by".to_string(), "name".to_string()),
        ("sort_order".to_string(), "desc".to_string()),
    ];
    assert_eq!(params, expected);
    assert!(ListOptions::new().to_query_params().is_empty());
}

#[test]
fn list_builder_ignores_bad_limit_and_fills_filters() {
    let mut builder = ListRequestBuilder::<TestFilters>::new().limit(0).offset(5);
    assert!(builder.filters().is_none());
    builder.filters_mut().status = Some("open".to_string());
    assert_eq!(builder.filters().unwrap().status, Some("open".to_string()));
    let (options, filters) = builder.build().unwrap();
    assert_eq!(options.limit, None);
    assert_eq!(options.offset, Some(5));
    assert_eq!(filters.status, Some("open".to_string()));

    let bad = ListRequestBuilder::<TestFilters>::new().page(1).cursor("c");
    assert!(bad.build().is_err());
    let with = ListRequestBuilder::<TestFilters>::new()
        .with_filters(TestFilters { status: Some("x".to_string()) })
        .sort_by("a", SortOrder::Asc);
    assert_eq!(with.options.sort_order, Some(SortOrder::Asc));
    assert_eq!(with.build().unwrap().1.status, Some("x".to_string()));
}

#[test]
fn update_builder_defaults_to_merge() {
    let (data, strategy) = UpdateRequestBuilder::new().data(7u8).build().unwrap();
    assert_eq!(data, 7);
    assert_eq!(strategy, MergeStrategy::Merge);
    assert!(UpdateRequestBuilder::<u8>::new().build().is_err());
    let c = CreateRequestBuilder::<u8>::new().validate(false);
    assert!(!c.validate_before_send);
}

#[test]
fn request_id_text() {
    assert_eq!(request_id(1700000000123, "abc123"), "stateset-1700000000123-abc123");
    assert_eq!(request_id(0, "x"), "stateset-0-x");
}

#[test]
fn build_reports_the_validation_error() {
    let bad = ListRequestBuilder::<TestFilters>::new().page(1).cursor("c");
    match bad.build() {
        Err(Error::Validation { message, .. }) => {
            assert_eq!(message, "Cannot use both cursor and page pagination simultaneously")
        }
        _ => panic!("expected a validation error"),
    }
}
