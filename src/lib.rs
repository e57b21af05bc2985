pub mod address;
pub mod node;
pub mod pubsubtopic;
pub mod response;
pub mod store;

pub use pubsubtopic::PubsubTopic;
pub use response::{LibwakuResponse, ResponseCell, WakuError};
pub use store::{MessageHash, StorePage, StoreQuery, StoreQueryRequest, StoreStep};
pub use node::{
    EngineCall, EventRegistration, Initialized, NodeModel, Running, WakuNodeConfig, WakuNodeContext,
    WakuNodeHandle,
};
