//! Client library for the Klozeo lead-management API: filter and query
//! construction, the requests of each endpoint, and the decisions around each
//! exchange (retries, error mapping, rate-limit state, stream paging).

pub mod client;
pub mod errors;
pub mod filters;
pub mod resources;
pub mod text;
pub mod types;

pub use client::{ClientConfig, ClientConfigBuilder};
pub use errors::{ApiError, Error};
pub use types::{
    Attribute, AttributeResponse, LeadInput, LeadInputBuilder, UpdateLeadInput, UpdateLeadInputBuilder,
    BatchCreateResult, BatchCreatedItem, BatchErrorItem, BatchResult, BatchResultItem, CreateResponse,
    ExportFormat, ExportOptions, ExportOptionsBuilder, ListOptions, ListOptionsBuilder, Note,
    RateLimitState, ScoringRule, ScoringRuleInput, SortField, SortOrder, Webhook, WebhookInput,
};
