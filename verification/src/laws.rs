//! The library's general laws, stated and proved over the parsing model.

use vstd::prelude::*;

use crate::model::BridgeModel;
use crate::model::DirectiveModel;
use crate::model::ParseOutcome;
use crate::model::Payload;
use crate::model::opt_fields;
use crate::model::spec_parse_line;
use crate::parser::DriverModel;
use crate::parser::ParseWarning;
use crate::parser::step_line;
use crate::registry::CommandId;
use crate::registry::Shape;
use crate::registry::shape_of;
use crate::registry::spec_command_id;
use crate::text::is_blank_or_comment;
use crate::text::is_space;
use crate::text::strip_comment;
use crate::text::tokens_of;
use crate::markers::end_marker_ident;
use crate::markers::start_marker_ident;
use crate::markers::is_inline_ident;

verus! {

/// For a command of fixed arity given at least its required tokens, dispatch
/// succeeds; the required fields are the first `n` tokens, and optional field
/// `k` is present exactly when token `n + k` was supplied.
pub proof fn lemma_fixed_arity_success(id: CommandId, cmd: Seq<char>, args: Seq<Seq<char>>, n: nat, m: nat)
    requires
        spec_command_id(cmd) == Some(id),
        shape_of(id) == (Shape::Fixed { required: n, optional: m }),
        args.len() >= n,
    ensures
        ({
            let d = DirectiveModel {
                id,
                payload: Payload::Fields {
                    required: args.take(n as int),
                    optional: opt_fields(args, n as int, m as int),
                },
            };
            spec_parse_line(cmd, args) == ParseOutcome::Parsed(d)
        }),
{
}

/// For a command of fixed arity given fewer than its required tokens,
/// dispatch answers `NotEnoughArguments` and produces no directive.
pub proof fn lemma_fixed_arity_not_enough(id: CommandId, cmd: Seq<char>, args: Seq<Seq<char>>, n: nat, m: nat)
    requires
        spec_command_id(cmd) == Some(id),
        shape_of(id) == (Shape::Fixed { required: n, optional: m }),
        args.len() < n,
    ensures
        spec_parse_line(cmd, args) == ParseOutcome::NotEnough,
{
}

/// An unregistered command answers `NoMatchingCommand`, whatever its
/// arguments.
pub proof fn lemma_unknown_command(cmd: Seq<char>, args: Seq<Seq<char>>)
    requires
        spec_command_id(cmd) is None,
    ensures
        spec_parse_line(cmd, args) == ParseOutcome::NoMatch,
{
}

/// The two valid arities of `server-bridge`: the single token `nogw` gives
/// the gateway-less form, exactly four tokens give the gateway configuration,
/// and every other argument list is answered with `NotEnoughArguments`.
pub proof fn lemma_server_bridge(cmd: Seq<char>, args: Seq<Seq<char>>)
    requires
        spec_command_id(cmd) == Some(CommandId::ServerBridge),
    ensures
        ({
            let no_gateway = DirectiveModel {
                id: CommandId::ServerBridge,
                payload: Payload::Bridge(BridgeModel::NoGateway),
            };
            let gateway = DirectiveModel {
                id: CommandId::ServerBridge,
                payload: Payload::Bridge(
                    BridgeModel::Gateway {
                        gateway: args[0],
                        netmask: args[1],
                        pool_start_ip: args[2],
                        pool_end_ip: args[3],
                    },
                ),
            };
            &&& (args.len() == 1 && args[0] == "nogw"@ ==> spec_parse_line(cmd, args)
                == ParseOutcome::Parsed(no_gateway))
            &&& (args.len() == 4 ==> spec_parse_line(cmd, args) == ParseOutcome::Parsed(gateway))
            &&& (!(args.len() == 1 && args[0] == "nogw"@) && args.len() != 4 ==> spec_parse_line(
                cmd,
                args,
            ) == ParseOutcome::NotEnough)
        }),
{
}

/// A command line (no block open, no inline start marker, not blank or
/// comment) contributes exactly its dispatch outcome at its own line number:
/// one warning and no directive when the command is unknown or short of
/// tokens, one directive and no warning when it parses.
pub proof fn lemma_step_command_line(st: DriverModel, n: int, line: Seq<char>)
    requires
        st.block is None,
        !(start_marker_ident(line) matches Some(id) && is_inline_ident(id)),
        !is_blank_or_comment(line),
        tokens_of(strip_comment(line)).len() > 0,
    ensures
        ({
            let toks = tokens_of(strip_comment(line));
            let outcome = spec_parse_line(toks[0], toks.drop_first());
            &&& (outcome is NoMatch ==> step_line(st, n, line) == (DriverModel {
                block: st.block,
                successes: st.successes,
                warnings: st.warnings.push((n, ParseWarning::NoMatchingCommand)),
            }))
            &&& (outcome is NotEnough ==> step_line(st, n, line) == (DriverModel {
                block: st.block,
                successes: st.successes,
                warnings: st.warnings.push((n, ParseWarning::NotEnoughArguments)),
            }))
            &&& (outcome matches ParseOutcome::Parsed(d) ==> step_line(st, n, line)
                == (DriverModel {
                block: st.block,
                successes: st.successes.push((n, d)),
                warnings: st.warnings,
            }))
        }),
{
}

/// A blank line, or a line whose first non-whitespace character is `#`,
/// contributes nothing to either output, whether or not a block is open.
pub proof fn lemma_skipped_line(st: DriverModel, n: int, line: Seq<char>)
    requires
        is_blank_or_comment(line),
    ensures
        step_line(st, n, line).successes == st.successes,
        step_line(st, n, line).warnings == st.warnings,
{
    if line.len() > 0 {
        assert(is_space(line[0]) || line[0] == '#');
        assert(!is_space('<'));
        assert(line[0] != '<');
        assert(end_marker_ident(line) is None);
        assert(start_marker_ident(line) is None);
    }
}

} // verus!
