//! A simple Discord snowflake parsing library.
//!
//! A snowflake is a 64-bit unsigned identifier that packs a millisecond
//! timestamp, a worker id, a process id and a per-process sequence counter
//! into fixed bit fields. [`parse`] decodes an integer, [`parse_str`]
//! validates and decodes a numeric string.

mod calendar;
mod error;
mod flake;
mod text;
mod unicode;

pub use calendar::naive_datetime_of_secs;
pub use error::message_of;
pub use error::IntErrorKind;
pub use error::ParseError;

pub use flake::flake_of;
pub use flake::increment_of;
pub use flake::parse;
pub use flake::process_id_of;
pub use flake::timestamp_of;
pub use flake::worker_id_of;
pub use flake::lemma_decode_deterministic;
pub use flake::lemma_field_ranges;
pub use flake::lemma_raw_round_trip;
pub use flake::Dflake;
pub use flake::EPOCH_OFFSET_MS;
pub use text::digit_value;
pub use text::lemma_digits_accepted;
pub use text::lemma_whitespace_checked_first;
pub use text::numeral_value;
pub use text::parse_str;
pub use text::parse_str_spec;
pub use text::parse_u64;
pub use text::parse_u64_spec;
pub use unicode::is_digit_char;
pub use unicode::is_numeric_char;
pub use unicode::is_space_char;
pub use unicode::unicode_numeric_ext;
pub use unicode::unicode_space_ext;
