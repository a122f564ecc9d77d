//! Decision logic of a repository synchronisation tool: what to stage, commit
//! and publish from the directory where the operator stands, and when.
//!
//! The library never touches the repository, the terminal or the network.
//! Each workflow is a state machine: it is handed the answer to its last
//! request and gives the next request, until it asks to finish. A host runs
//! the requests. What a workflow asks is stated, for every state and every
//! answer, by the `next` function of its view, and the laws that the tool
//! relies on are proved of those functions.
//!
//! - `exchange`: the requests and answers that workflows and host exchange.
//! - `session`: a whole run, which starts the workflows below.
//! - `preflight`, `divergence`, `sync_status`, `pending`: what is settled
//!   before anything is staged.
//! - `stage_commit`: staging and committing one pathspec.
//! - `publish`, `auth`, `create_remote`, `hosting`, `initialize`: pushing,
//!   credentials, the hosting service, and a repository where there is none.
//! - `repo`, `pathspec`, `changes`, `status`, `process`, `ui`: what is read
//!   from the answers of the version-control tool and of the operator.
//! - `text`, `trim`, `search`, `split`, `number`, `order`: text as sequences
//!   of characters.
//! - `json`, `paths`, `std_text`: what is taken on trust from `serde_json`
//!   and from the standard library.

pub mod auth;
pub mod changes;
pub mod create_remote;
pub mod divergence;
pub mod error;
pub mod exchange;
pub mod hosting;
pub mod initialize;
pub mod json;
pub mod number;
pub mod order;
pub mod paths;
pub mod pathspec;
pub mod pending;
pub mod preflight;
pub mod process;
pub mod publish;
pub mod repo;
pub mod search;
pub mod session;
pub mod split;
pub mod stage_commit;
pub mod status;
pub mod std_text;
pub mod sync_status;
pub mod text;
pub mod trim;
pub mod ui;
