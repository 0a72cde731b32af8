//! Extraction of typed telemetry and configuration records from the
//! semi-structured markup pages served by a Liebert MPX power distribution
//! unit, and the encoding of commands and settings back into the vendor's
//! form fields.
//!
//! The pipeline runs in fixed stages: the outside markup parser turns raw
//! text into a document tree (the one trusted step, see [`html`]); the
//! region locator finds the labelled container holding each data table; the
//! table extractor turns a table node into a label-keyed mapping; and the
//! record builders turn those mappings into immutable, strongly typed
//! records, failing fast on the first missing or malformed field.

pub mod branch;
pub mod commands;
pub mod enums;
pub mod error;
pub mod events;
pub mod fields;
pub mod html;
pub mod listing;
pub mod mpx;
pub mod pdu;
pub mod receptacle;
pub mod table;
pub mod text;
pub mod tree;
pub mod version;

pub use branch::BranchEvents;
pub use branch::BranchHardware;
pub use branch::BranchInfoRaw;
pub use branch::BranchSettings;
pub use branch::BranchStatusRaw;
pub use commands::BranchCmd;
pub use commands::PDUCmd;
pub use commands::ReceptacleCmd;
pub use enums::BRMModel;
pub use enums::Capability;
pub use enums::EventLevel;
pub use enums::EventType;
pub use enums::LineSource;
pub use enums::PEMModel;
pub use enums::ReceptacleType;
pub use enums::WiringType;
pub use error::EnumParseError;
pub use error::InvalidDataError;
pub use error::MPXError;
pub use error::MissingDataError;
pub use events::Event;
pub use events::EventList;
pub use events::parse_events;
pub use listing::ReceptacleList;
pub use listing::ReceptacleListEntry;
pub use listing::parse_receptacles;
pub use mpx::MPX;
pub use pdu::PDUEvents;
pub use pdu::PDUHardware;
pub use pdu::PDUInfoRaw;
pub use pdu::PDUSettings;
pub use pdu::PDUStatusRaw;
pub use receptacle::ReceptacleEvents;
pub use receptacle::ReceptacleHardware;
pub use receptacle::ReceptacleInfoRaw;
pub use receptacle::ReceptacleSettings;
pub use receptacle::ReceptacleStatusRaw;
pub use table::InfoTables;
pub use table::RawTable;
pub use table::TableValue;
pub use table::get_info_tables;
pub use version::FWVersion;
