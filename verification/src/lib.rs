//! A workflow engine that turns a topic into a reference note: it searches the
//! web, fetches a page, lets a local language model summarize it, and stores
//! the result in a note vault. It runs either as a fixed pipeline or as an
//! agent that lets the model decide which tool to call next.
//!
//! The engine decides and describes; it sends nothing itself. Each workflow is
//! a state machine whose steps take what an outside service gave and return
//! the progress events to publish and the next request to send:
//!
//! - [`agent`]: the bounded conversation in which the model calls tools;
//! - [`pipeline`]: acquisition, synthesis and persistence of a chosen page;
//! - [`vault_chat`]: a question answered from the notes of the vault;
//! - [`search`]: discovery, the search that comes before the pipeline.
//!
//! Around them stand the parser of tool calls ([`toolcall`]), the dispatcher
//! ([`dispatch`]), the requests ([`requests`]), the texts put before the model
//! ([`prompts`]), the note ([`notes`]), the reading of the model's replies
//! ([`llm`]), the tag stripper ([`html`]), the errors ([`errors`]), the events
//! ([`events`]) and the records and text utilities they share.

pub mod agent;
pub mod dispatch;
pub mod errors;
pub mod events;
pub mod html;
pub mod llm;
pub mod notes;
pub mod pipeline;
pub mod prompts;
pub mod records;
pub mod requests;
pub mod search;
pub mod steps;
pub mod text;
pub mod toolcall;
pub mod vault_chat;
