//! Field-trace recorder for a binary wire protocol.
//!
//! The recorder watches the typed reads and writes that a process performs on
//! its packet buffers and rebuilds from them, per buffer, the list of fields
//! with their kinds, lengths, offsets and call sites. Bytes that no observed
//! operation accounts for are recorded as gaps. Around it stand plain-value
//! views of the containers that the packets and their neighbours are made of,
//! and the small decisions of the code that attaches the recorder to a process.
//!
//! - [`packet_schema`]: field records, traces, the recorder of one direction
//!   and what a flush hands to the persistence sink.
//! - [`trace_laws`]: what holds of every trace and every flush.
//! - [`socket`]: the outbound and the inbound packet.
//! - [`ztl`]: arrays, strings, hash maps, scrambled values and singletons.
//! - [`static_zxstr`]: strings with a fixed text.
//! - [`config`], [`error_codes`], [`exceptions`], [`stack_walker`],
//!   [`profiler`], [`patch`], [`ref_time`], [`le_bytes`], [`padding`]:
//!   settings, codes and the decisions around exceptions, stack walks, module
//!   lookup, code patches and the clock.

pub mod config;
pub mod error_codes;
pub mod exceptions;
pub mod le_bytes;
pub mod packet_schema;
pub mod padding;
pub mod patch;
pub mod profiler;
pub mod ref_time;
pub mod socket;
pub mod stack_walker;
pub mod static_zxstr;
pub mod trace_laws;
pub mod ztl;
