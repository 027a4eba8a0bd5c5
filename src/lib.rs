//! A cooperative, single-task execution substrate for small targets.
//!
//! Work is expressed as pollable computations ([`future::Future`]) that either
//! complete with a value or report that they are suspended. A single
//! notification token ([`waker::EmbrioWaker`]) records that something of
//! interest happened, and the [`executor::Executor`] decides, from that token,
//! when the root computation is advanced again. Byte sources and sinks
//! ([`io::Read`], [`io::Write`]) and item sinks ([`sink::Sink`]) are advanced
//! with the same token.
pub mod buf_reader;
pub mod cursor;
pub mod digital;
pub mod executor;
pub mod future;
pub mod gpio;
pub mod io;
pub mod native;
pub mod poll;
pub mod read_exact;
pub mod read_until;
pub mod sink;
pub mod spawn;
pub mod stream;
pub mod timer;
pub mod waker;
pub mod write_all;
pub mod zst_ref;

pub use buf_reader::BufReader;
pub use cursor::{sink, void, Cursor, Sink, Void};
pub use executor::Executor;
pub use future::{join, select, Future};
pub use io::{close, flush, BufRead, Read, Write};
pub use native::{init, EmbrioNative};
pub use poll::Poll;
pub use read_exact::read_exact;
pub use read_until::read_until;
pub use spawn::NoSpawn;
pub use stream::{filter, filter_map, first, Filter, FilterMap, StableInfiniteStream, Stream};
pub use waker::EmbrioWaker;
pub use write_all::write_all;
pub use zst_ref::ZstRef;
pub mod uart;
