//! A small convenience layer over a browser-like host runtime's file,
//! blob, and asynchronous file-reader objects.
//!
//! The host's objects are represented by plain values: a file handle
//! carries the byte size and content-type string the host reports for
//! it, a file list is a snapshot of the host collection taken at
//! construction time, and an in-memory blob owns the string it was
//! built from. The one piece with real sequencing logic, the
//! asynchronous read bridge, is a state machine driven by host
//! completion events; the surrounding runtime performs the actual host
//! calls and feeds the events back in.

pub mod blob;
pub mod file_list;
pub mod mime;
pub mod reader;

pub use blob::Blob;
pub use blob::DataBlob;
pub use blob::File;
pub use file_list::FileInput;
pub use file_list::FileList;
pub use file_list::FileListIter;
pub use mime::MimeType;
pub use reader::FileReader;
pub use reader::PendingRead;
pub use reader::ReadError;
pub use reader::ReadState;
