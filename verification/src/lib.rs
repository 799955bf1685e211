//! Domain events for components, their JSON framing, and the decisions of a
//! transactional outbox relay.
pub mod json;
pub mod component_dto;
pub mod events;
pub mod messages;
pub mod env;
pub mod decimal;
pub mod text;
pub mod db_config;
pub mod relay_config;
pub mod relay;
pub mod outbox;
pub mod view_service;
