//! Typed front ends for a family of Wikimedia query tools, and the page-list
//! algebra that combines their results.
//!
//! Every tool type builds the address or the parameters of one request and
//! turns the answer, handed over as a [`json::JsonValue`] or as text, into a
//! small typed result. [`page_list::PageList`] holds pages of one wiki and
//! offers `subset` and `union` keyed by page identity. Sending requests is
//! left to the caller.
pub mod a_list_building_tool;
pub mod completer;
pub mod csv_table;
pub mod dates;
pub mod duplicity;
pub mod error;
pub mod fancy_title;
pub mod grep;
pub mod json;
pub mod list_building;
pub mod missing_topics;
pub mod page_laws;
pub mod page_list;
pub mod pagepile;
pub mod pageviews;
pub mod persondata_template;
pub mod persondata_vorlage;
pub mod petscan;
pub mod quarry;
pub mod quickstatements;
pub mod search;
pub mod site;
pub mod sparql_rc;
pub mod text;
pub mod title;
pub mod tools_interface;
pub mod xtools_pages;

pub use a_list_building_tool::AListBuildingTool;
pub use completer::{Completer, CompleterFilter};
pub use duplicity::Duplicity;
pub use error::ToolsError;
pub use missing_topics::MissingTopics;
pub use pagepile::PagePile;
pub use pageviews::{
    Pageviews, PageviewsAccess, PageviewsAgent, PageviewsGranularity, PageviewsParams,
    PageviewsResult, PageviewsTimestamp,
};
pub use persondata_template::{
    PersondataTemplatesOccOp, PersondataTemplatesParamNameOp, PersondataTemplatesParamValueOp,
    PersondataTemplatesQuery, PersondataTemplatesResult,
};
pub use petscan::{PetScan, PetScanFileUsage, PetScanMetadata, PetScanPage};
pub use quarry::Quarry;
pub use quickstatements::QuickStatements;
pub use site::Site;
pub use sparql_rc::{EntityEdit, EntityEditor, SparqlRC};
pub use tools_interface::ToolsInterface;
