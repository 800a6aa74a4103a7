//! The mathematical model of parsed directives.
//!
//! Executable directive values carry `String`s; their models carry the
//! corresponding `Seq<char>` views, arranged by argument shape rather than by
//! per-command field names. Every contract about parsing speaks over these
//! models.

use vstd::prelude::*;

use crate::registry::CommandId;
use crate::registry::Shape;
use crate::registry::shape_of;
use crate::registry::spec_command_id;

verus! {

/// The model of a `File` argument.
#[verifier::ext_equal]
pub enum FileModel {
    Path(Seq<char>),
    Inline(Seq<char>),
}

/// The model of a `server-bridge` argument.
#[verifier::ext_equal]
pub enum BridgeModel {
    NoGateway,
    Gateway {
        gateway: Seq<char>,
        netmask: Seq<char>,
        pool_start_ip: Seq<char>,
        pool_end_ip: Seq<char>,
    },
}

/// The arguments a directive carries, arranged by its command's shape.
#[verifier::ext_equal]
pub enum Payload {
    /// Required positional arguments, then the optional ones; an optional
    /// argument is `None` exactly when its token was not supplied.
    Fields { required: Seq<Seq<char>>, optional: Seq<Option<Seq<char>>> },
    /// All supplied tokens of a variadic command.
    Varargs(Seq<Seq<char>>),
    /// All supplied tokens of an optionally-variadic command, absent when
    /// none were supplied.
    OptionalVarargs(Option<Seq<Seq<char>>>),
    /// A file argument, then the optional positional arguments.
    WithFile { file: FileModel, optional: Seq<Option<Seq<char>>> },
    /// The `server-bridge` argument.
    Bridge(BridgeModel),
}

/// The model of one parsed directive: which command it is, and the arguments
/// it carries.
#[verifier::ext_equal]
pub struct DirectiveModel {
    pub id: CommandId,
    pub payload: Payload,
}

/// The model of dispatching one command line: unknown command, too few
/// arguments, or a parsed directive.
#[verifier::ext_equal]
pub enum ParseOutcome {
    NoMatch,
    NotEnough,
    Parsed(DirectiveModel),
}

/// The optional argument at position `i`: present exactly when a token was
/// supplied there.
pub open spec fn opt_from(args: Seq<Seq<char>>, i: int) -> Option<Seq<char>> {
    if 0 <= i < args.len() {
        Some(args[i])
    } else {
        None
    }
}

/// The `count` optional arguments starting at position `start`.
pub open spec fn opt_fields(args: Seq<Seq<char>>, start: int, count: int) -> Seq<
    Option<Seq<char>>,
> {
    Seq::new(count as nat, |k: int| opt_from(args, start + k))
}

/// How a command of shape `shape` consumes its argument tokens, assuming
/// enough of them were supplied ([`arity_ok`]).
pub open spec fn spec_payload(shape: Shape, args: Seq<Seq<char>>) -> Payload {
    match shape {
        Shape::Fixed { required, optional } => Payload::Fields {
            required: args.take(required as int),
            optional: opt_fields(args, required as int, optional as int),
        },
        Shape::Varargs => Payload::Varargs(args),
        Shape::OptionalVarargs => Payload::OptionalVarargs(
            if args.len() > 0 {
                Some(args)
            } else {
                None
            },
        ),
        Shape::InlineFile { optional } => Payload::WithFile {
            file: FileModel::Path(args[0]),
            optional: opt_fields(args, 1, optional as int),
        },
        Shape::Bridge => Payload::Bridge(
            if args.len() == 1 {
                BridgeModel::NoGateway
            } else {
                BridgeModel::Gateway {
                    gateway: args[0],
                    netmask: args[1],
                    pool_start_ip: args[2],
                    pool_end_ip: args[3],
                }
            },
        ),
    }
}

/// Whether enough argument tokens were supplied for shape `shape`; when this
/// fails the line is answered with a `NotEnoughArguments` warning.
pub open spec fn arity_ok(shape: Shape, args: Seq<Seq<char>>) -> bool {
    match shape {
        Shape::Fixed { required, optional } => args.len() >= required,
        Shape::Varargs => args.len() > 0,
        Shape::OptionalVarargs => true,
        Shape::InlineFile { optional } => args.len() > 0,
        Shape::Bridge => (args.len() == 1 && args[0] == "nogw"@) || args.len() == 4,
    }
}

/// The outcome of dispatching argument tokens to the command identified (or
/// not) by `id_opt`.
pub open spec fn spec_line_outcome(id_opt: Option<CommandId>, args: Seq<Seq<char>>) -> ParseOutcome {
    match id_opt {
        Option::None => ParseOutcome::NoMatch,
        Option::Some(id) => if arity_ok(shape_of(id), args) {
            ParseOutcome::Parsed(DirectiveModel { id, payload: spec_payload(shape_of(id), args) })
        } else {
            ParseOutcome::NotEnough
        },
    }
}

/// The outcome of dispatching one command line: the registry lookup of `cmd`
/// followed by consuming `args` according to the command's shape.
pub open spec fn spec_parse_line(cmd: Seq<char>, args: Seq<Seq<char>>) -> ParseOutcome {
    spec_line_outcome(spec_command_id(cmd), args)
}

} // verus!
