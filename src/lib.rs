//! User-space control layer for BPF programs and maps: the error taxonomy,
//! map flags and access checks, the key-iteration cursor and the kernel
//! enumerations, with their contracts proved.
pub mod error;
pub mod flags;
pub mod key_iter;
pub mod map;
pub mod map_type;
pub mod program_type;

pub use error::{Error, Result};
pub use flags::MapFlags;
pub use key_iter::MapKeyIter;
pub use map::{BpfMap, MapOps, PinnedMap};
pub use map_type::MapType;
pub use program_type::{ProgramAttachType, ProgramType};
