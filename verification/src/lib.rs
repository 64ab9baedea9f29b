//! A registry of folder operation events: a closed enumeration of
//! operation identifiers with stable wire codes, total encoding from
//! event to code, fallible decoding from code to event, and
//! construction-time validation of the schema that declares the pairs.

pub mod descriptor;
pub mod events;
pub mod folder;
pub mod registry;

pub use descriptor::file_descriptor_proto;
pub use descriptor::parse_descriptor_proto;
pub use events::FolderEvent;
pub use folder::folder_entries;
pub use folder::folder_registry;
pub use registry::EventEntry;
pub use registry::EventRegistry;
pub use registry::SchemaViolation;
