//! Verified core of the DeArrow Browser frontend: number rendering, task bookkeeping, the
//! metadata and thumbnail caches, identifier allocation, rate limiting, pagination, search
//! input handling, links and API URLs, settings, the status page, voting, and both sides of
//! the thumbnail worker protocol.

pub mod numbers;
pub mod seqs;
pub mod tasks;
pub mod metadata;
pub mod thumbs;
pub mod ids;
pub mod ratelimit;
pub mod api;
pub mod flags;
pub mod pages;
pub mod web_url;
pub mod links;
pub mod search;
pub mod version;
pub mod settings;
pub mod worker_api;
pub mod metadata_view;
pub mod voting;
pub mod status_view;
pub mod tables;
pub mod worker_client;
pub mod worker_clients;
pub mod header;
pub mod rc_eq;
pub mod modals;
pub mod details;
pub mod thumbgen;
pub mod remote_table;
pub mod tabs;
pub mod user_context;
pub mod uuid_page;
pub mod subject_pages;
pub mod worker_requests;
