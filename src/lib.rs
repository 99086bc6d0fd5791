//! Drafting and making a commit from staged changes: a message generator that
//! builds the model request and parses its reply, and a workflow that
//! sequences staging, diff, generation, confirmation, commit and push.
pub mod config;
pub mod llm;
pub mod text;
pub mod workflow;
