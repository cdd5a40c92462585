//! Channels and events of the realtime feed, and the settings of a connection.
use vstd::prelude::*;

verus! {

/// A channel of the realtime feed.
#[derive(Debug, Clone, Copy, PartialEq, Eq, Structural)]
pub enum Channel {
    /// Order events.
    Orders,
    /// Inventory events.
    Inventory,
    /// Return events.
    Returns,
    /// Shipment events.
    Shipments,
    /// Every channel.
    All,
}

impl Channel {
    /// The name of the channel, as the feed writes it.
    pub fn name(&self) -> (r: &'static str)
        ensures
            r@ == match self {
                Channel::Orders => "orders"@,
                Channel::Inventory => "inventory"@,
                Channel::Returns => "returns"@,
                Channel::Shipments => "shipments"@,
                Channel::All => "all"@,
            },
    {
        match self {
            Channel::Orders => "orders",
            Channel::Inventory => "inventory",
            Channel::Returns => "returns",
            Channel::Shipments => "shipments",
            Channel::All => "all",
        }
    }
}

/// An event of a return.
#[derive(Debug, Clone)]
pub enum ReturnEvent {
    /// A return was created.
    Created { return_id: String },
    /// A return was approved.
    Approved { return_id: String },
    /// A return was rejected.
    Rejected { return_id: String },
    /// A returned parcel was received.
    Received { return_id: String },
}

/// An event of a shipment.
#[derive(Debug, Clone)]
pub enum ShipmentEvent {
    /// A shipment was created.
    Created { shipment_id: String },
    /// A shipment is on its way.
    InTransit { shipment_id: String },
    /// A shipment was delivered.
    Delivered { shipment_id: String },
    /// A shipment failed.
    Failed { shipment_id: String, reason: String },
}

/// An event of the connection itself.
#[derive(Debug, Clone)]
pub enum SystemEvent {
    /// The connection was made.
    Connected,
    /// The connection was lost.
    Disconnected { reason: String },
    /// An error was reported.
    Error { message: String },
    /// The connection is alive.
    Heartbeat,
}

/// An open realtime connection.
#[derive(Debug)]
pub struct RealtimeConnection {}

/// The settings of a realtime connection.
#[derive(Debug, Clone)]
pub struct RealtimeBuilder {
    /// The feed's address.
    pub url: String,
    /// Token sent when connecting.
    pub auth_token: Option<String>,
}

impl RealtimeBuilder {
    /// Settings for the feed at `url`, without a token.
    pub fn new(url: &str) -> (r: RealtimeBuilder)
        ensures
            r.url@ == url@,
            r.auth_token is None,
    {
        RealtimeBuilder { url: url.to_owned(), auth_token: None }
    }

    /// Sets the token.
    pub fn auth_token(self, token: &str) -> (r: RealtimeBuilder)
        ensures
            r.url == self.url,
            r.auth_token matches Some(t) && t@ == token@,
    {
        RealtimeBuilder { url: self.url, auth_token: Some(token.to_owned()) }
    }
}

/// Clients that can open a realtime connection.
pub trait RealtimeExt {
    /// The settings of a realtime connection for this client.
    fn realtime(&self) -> RealtimeBuilder;
}

} // verus!
