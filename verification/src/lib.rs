//! Workspace workflows of workmux.

pub mod effect;
pub mod error;
pub mod jj;
pub mod list;
pub mod list_laws;
pub mod merge;
pub mod merge_history;
pub mod merge_laws;
pub mod meta;
pub mod order;
pub mod path_laws;
pub mod paths;
pub mod printable;
pub mod printable_laws;
pub mod rebase;
pub mod rebase_history;
pub mod rebase_laws;
pub mod relative;
pub mod roots;
pub mod run;
pub mod set_base;
pub mod table;
pub mod text;
pub mod text_laws;
pub mod view_laws;
pub mod workspace;
