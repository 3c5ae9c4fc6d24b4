//! Capture, decode, buffer and render pipeline for a USB protocol analyzer
//! whose sniffed OUT transactions carry audio samples.
//!
//! The analyzer's stream is read in [`decoder`], header by header as laid
//! out in [`header`] and [`bits`]. Payloads go through [`extractor`], which
//! finds the audio in them. [`capture`] and [`render`] are the two sides of
//! the buffer [`pool`]; they hand frames ([`frame`]) to each other over the
//! queues of [`queue`]. [`control`] arms the analyzer and [`config`] reads
//! the audio configuration.

pub mod bits;
pub mod capture;
pub mod config;
pub mod control;
pub mod decoder;
pub mod extractor;
pub mod frame;
pub mod header;
pub mod pool;
pub mod queue;
pub mod render;
