//! The tool layer: a catalogue of ten tools, the dispatch of a `{tool, params}`
//! envelope to its endpoint, and the reshaping of each endpoint's response into a table.

pub mod catalog;
pub mod dispatch;
pub mod fundamentals;
pub mod schema;
pub mod sorting;
pub mod time_series;

pub use catalog::{get_tool_details, list_tools, ToolInfo};
pub use dispatch::{
    finish_tool_call, plan_tool_call, tool_result, ToolCallResult, ToolKind, ToolRequest,
};
pub use schema::{ColumnDef, Schema, TransformResult};
