//! A client-side implementation of the Mercure hub protocol: topics,
//! topic selectors, signed access tokens, and the publish-update wire
//! encoding.

pub mod ascii;
pub mod base64url;
pub mod client;
pub mod cookie;
pub mod form;
pub mod jwt;
pub mod json;
pub mod topic;
pub mod topic_selector;

pub use client::{HubUrl, PublishUpdatePrivacy};
pub use jwt::{PublisherJwt, SubscriberJwt};
pub use topic::Topic;
pub use topic_selector::TopicSelector;
