//! A verified parser for OpenVPN-style configuration files.
//!
//! A configuration file is line-oriented text. Each non-blank, non-comment
//! line is a command name followed by whitespace-separated argument tokens,
//! for example `remote somehost someport`. A handful of commands may instead
//! carry their file argument inline, between pseudo-XML markers:
//!
//! ```text
//! <cert>
//! -----BEGIN CERTIFICATE-----
//! [...]
//! -----END CERTIFICATE-----
//! </cert>
//! ```
//!
//! Every known command is one variant of [`ConfigDirective`]. Required
//! arguments are `String` fields, optional arguments are `Option<String>`
//! fields, variadic arguments are `Vec<String>` fields, and inline-capable
//! commands carry a [`File`] that is either a path or the inline contents.
//!
//! The entry point is [`parse_lines`], which takes the file's lines (without
//! line terminators) and returns a [`ParsedConfigFile`]: the successfully
//! parsed directives and the per-line warnings, each tagged with its 1-based
//! source line number. Unknown commands and commands with too few arguments
//! become warnings; they never abort the parse. An inline block that never
//! sees its closing marker before the input ends is silently discarded.

use vstd::prelude::*;

mod block;
mod laws;
mod directive;
mod dispatch;
mod markers;
mod model;
mod parser;
mod registry;
mod text;

pub use block::BlockModel;
pub use block::InlineFileParseState;
pub use block::inline_directive_model;
pub use parser::ConfigLine;
pub use parser::DriverModel;
pub use parser::ParseWarning;
pub use parser::ParsedConfigFile;
pub use parser::ParsedModel;
pub use parser::parse_lines;
pub use parser::parse_model;
pub use parser::step_line;
pub use parser::run_lines;
pub use model::DirectiveModel;
pub use model::Payload;
pub use model::FileModel;
pub use model::BridgeModel;
pub use model::ParseOutcome;
pub use model::arity_ok;
pub use model::opt_fields;
pub use registry::spec_command_id;
pub use registry::shape_of;
pub use directive::ConfigDirective;
pub use directive::File;
pub use directive::LineParseResult;
pub use directive::ServerBridgeArg;
pub use dispatch::parse_line;
pub use model::spec_parse_line;
pub use registry::CommandId;
pub use registry::Shape;

pub use markers::start_marker_ident;
pub use markers::end_marker_ident;
pub use markers::is_inline_ident;
pub use text::is_space;
pub use text::tokens_of;
pub use text::strip_comment;
pub use text::join_lines;
pub use text::char_views;
