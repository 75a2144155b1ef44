//! A text-driven auction mediator: the catalog of items for sale, one auction
//! context per conversation, and the rules that turn the replies of a language
//! model into claims, buyer addresses and finalized offers.

pub mod buffer;
pub mod context;
pub mod extract;
pub mod host;
pub mod laws;
pub mod llm_types;
pub mod manager;
pub mod model;
pub mod nft_map;
pub mod prompts;
pub mod seqs;
pub mod snapshot;
pub mod structs;
pub mod text;
pub mod wei;
pub mod wording;
