//! A driver core for YashanDB: the decisions, conversions and checks that the
//! client-library layer relies on, stated with contracts and proved.
//!
//! The native client library (`yascli`) is an outside service. Every exchange
//! with it is described here as a plain request or reply value; the layer that
//! owns the native handles performs the calls and hands the replies back.

pub mod column;
pub mod conn;
pub mod connect;
pub mod error;
pub mod ffi;
pub mod library;
pub mod lob;
pub mod param;
pub mod query;
pub mod result_set;
pub mod stmt;
pub mod text;
pub mod transaction;

pub use column::{ColumnInfo, DataType, DataTypeInfo};
pub use conn::{Connection, ConnectionBuilder, TransactionIsolation};
pub use error::Error;
pub use library::{load_library, load_library_with_path};
pub use lob::{Blob, Clob};
pub use param::BindParam;
pub use query::ExecResult;
pub use result_set::{ColumnIndex, ResultSet};
pub use stmt::Statement;
pub use transaction::Transaction;
