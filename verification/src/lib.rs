pub mod auto_figures;
pub mod complete;
pub mod content;
pub mod generated;
pub mod highlight;
pub mod laws;
pub mod markup;
pub mod messages;
pub mod paths;
pub mod patterns;
pub mod text;
pub mod ts_config;
