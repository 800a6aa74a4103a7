//! The dispatcher: looks a command name up in the registry and builds the
//! typed directive from the argument tokens.

use vstd::prelude::*;

use crate::directive::ConfigDirective;
use crate::directive::File;
use crate::directive::LineParseResult;
use crate::directive::ServerBridgeArg;
use crate::model::opt_from;
use crate::model::spec_line_outcome;
use crate::model::spec_parse_line;
use crate::model::spec_payload;
use crate::registry::CommandId;
use crate::registry::command_id_from_help;
use crate::registry::command_id_from_http_proxy;
use crate::registry::command_id_from_dev;
use crate::registry::command_id_from_route_delay;
use crate::registry::command_id_from_mtu_disc;
use crate::registry::command_id_from_ping_exit;
use crate::registry::command_id_from_down_pre;
use crate::registry::command_id_from_daemon;
use crate::registry::command_id_from_multihome;
use crate::registry::command_id_from_management_query_passwords;
use crate::registry::command_id_from_management_client_user;
use crate::registry::command_id_from_ifconfig_pool_linear;
use crate::registry::command_id_from_tcp_queue_limit;
use crate::registry::command_id_from_verify_client_cert;
use crate::registry::command_id_from_connect_timeout;
use crate::registry::command_id_from_no_replay;
use crate::registry::command_id_from_dh;
use crate::registry::command_id_from_pkcs11_pin_cache;
use crate::registry::command_id_from_tran_window;
use crate::registry::command_id_from_ns_cert_type;
use crate::registry::command_id_from_rmtun;
use crate::registry::command_id_from_service;
use crate::registry::command_id_from_iroute_ipv6;
use crate::directive::model_via_help;
use crate::directive::model_via_http_proxy;
use crate::directive::model_via_dev;
use crate::directive::model_via_route_delay;
use crate::directive::model_via_mtu_disc;
use crate::directive::model_via_ping_exit;
use crate::directive::model_via_down_pre;
use crate::directive::model_via_daemon;
use crate::directive::model_via_multihome;
use crate::directive::model_via_management_query_passwords;
use crate::directive::model_via_management_client_user;
use crate::directive::model_via_ifconfig_pool_linear;
use crate::directive::model_via_tcp_queue_limit;
use crate::directive::model_via_verify_client_cert;
use crate::directive::model_via_connect_timeout;
use crate::directive::model_via_no_replay;
use crate::directive::model_via_dh;
use crate::directive::model_via_pkcs11_pin_cache;
use crate::directive::model_via_tran_window;
use crate::directive::model_via_ns_cert_type;
use crate::directive::model_via_rmtun;
use crate::directive::model_via_service;
use crate::directive::model_via_iroute_ipv6;
use crate::directive::model_from_help;
use crate::directive::model_from_http_proxy;
use crate::directive::model_from_dev;
use crate::directive::model_from_route_delay;
use crate::directive::model_from_mtu_disc;
use crate::directive::model_from_ping_exit;
use crate::directive::model_from_down_pre;
use crate::directive::model_from_daemon;
use crate::directive::model_from_multihome;
use crate::directive::model_from_management_query_passwords;
use crate::directive::model_from_management_client_user;
use crate::directive::model_from_ifconfig_pool_linear;
use crate::directive::model_from_tcp_queue_limit;
use crate::directive::model_from_verify_client_cert;
use crate::directive::model_from_connect_timeout;
use crate::directive::model_from_no_replay;
use crate::directive::model_from_dh;
use crate::directive::model_from_pkcs11_pin_cache;
use crate::directive::model_from_tran_window;
use crate::directive::model_from_ns_cert_type;
use crate::directive::model_from_rmtun;
use crate::directive::model_from_service;
use crate::directive::model_from_iroute_ipv6;
use crate::registry::shape_of;
use crate::text::char_views;
use crate::text::str_eq;

verus! {

/// The required argument at position `i`.
fn arg_at(args: &Vec<String>, i: usize) -> (r: String)
    requires
        i < args@.len(),
    ensures
        r@ == char_views(args@)[i as int],
{
    args[i].clone()
}

/// The optional argument at position `i`: present exactly when a token was
/// supplied there.
fn opt_arg(args: &Vec<String>, i: usize) -> (r: Option<String>)
    ensures
        r.deep_view() == opt_from(char_views(args@), i as int),
{
    if i < args.len() {
        Some(args[i].clone())
    } else {
        None
    }
}

/// All supplied argument tokens, as the value of a variadic field.
fn all_args(args: &Vec<String>) -> (r: Vec<String>)
    ensures
        r.deep_view() == char_views(args@),
{
    let mut r: Vec<String> = Vec::new();
    let mut i: usize = 0;
    while i < args.len()
        invariant
            i <= args@.len(),
            r@ == args@.take(i as int),
        decreases args@.len() - i,
    {
        r.push(args[i].clone());
        proof {
            assert(args@.take(i as int).push(args@[i as int]) =~= args@.take(i as int + 1));
        }
        i += 1;
    }
    proof {
        assert(r@ =~= args@);
        assert(r.deep_view() =~~= char_views(args@));
    }
    r
}

/// Dispatch among the commands `help` through `show-proxy-settings`.
#[verifier::rlimit(100)]
fn parse_from_help(command: &str, args: &Vec<String>) -> (r: LineParseResult)
    ensures
        r@ == spec_line_outcome(command_id_from_help(command@), char_views(args@)),
{
    proof {
        reveal(crate::registry::command_id_from_help);
    }
    if str_eq(command, "help") {
        let d = ConfigDirective::Help;
        proof {
            model_via_help(&d);
            reveal(crate::directive::model_from_help);
            assert(d@.payload =~~= spec_payload(
                shape_of(CommandId::Help),
                char_views(args@),
            ));
        }
        LineParseResult::Success(d)
    } else if str_eq(command, "config") {
        if args.len() < 1 {
            LineParseResult::NotEnoughArguments
        } else {
            let d = ConfigDirective::Config { file: arg_at(args, 0) };
            proof {
                model_via_help(&d);
                reveal(crate::directive::model_from_help);
                assert(d@.payload =~~= spec_payload(
                    shape_of(CommandId::Config),
                    char_views(args@),
                ));
            }
            LineParseResult::Success(d)
        }
    } else if str_eq(command, "mode") {
        if args.len() < 1 {
            LineParseResult::NotEnoughArguments
        } else {
            let d = ConfigDirective::Mode { m: arg_at(args, 0) };
            proof {
                model_via_help(&d);
                reveal(crate::directive::model_from_help);
                assert(d@.payload =~~= spec_payload(
                    shape_of(CommandId::Mode),
                    char_views(args@),
                ));
            }
            LineParseResult::Success(d)
        }
    } else if str_eq(command, "local") {
        if args.len() < 1 {
            LineParseResult::NotEnoughArguments
        } else {
            let d = ConfigDirective::Local { host: arg_at(args, 0) };
            proof {
                model_via_help(&d);
                reveal(crate::directive::model_from_help);
                assert(d@.payload =~~= spec_payload(
                    shape_of(CommandId::Local),
                    char_views(args@),
                ));
            }
            LineParseResult::Success(d)
        }
    } else if str_eq(command, "remote") {
        if args.len() < 1 {
            LineParseResult::NotEnoughArguments
        } else {
            let d = ConfigDirective::Remote {
                host: arg_at(args, 0),
                port: opt_arg(args, 1),
                proto: opt_arg(args, 2),
            };
            proof {
                model_via_help(&d);
                reveal(crate::directive::model_from_help);
                assert(d@.payload =~~= spec_payload(
                    shape_of(CommandId::Remote),
                    char_views(args@),
                ));
            }
            LineParseResult::Success(d)
        }
    } else if str_eq(command, "remote-random-hostname") {
        let d = ConfigDirective::RemoteRandomHostname;
        proof {
            model_via_help(&d);
            reveal(crate::directive::model_from_help);
            assert(d@.payload =~~= spec_payload(
                shape_of(CommandId::RemoteRandomHostname),
                char_views(args@),
            ));
        }
        LineParseResult::Success(d)
    } else if str_eq(command, "proto-force") {
        if args.len() < 1 {
            LineParseResult::NotEnoughArguments
        } else {
            let d = ConfigDirective::ProtoForce { p: arg_at(args, 0) };
            proof {
                model_via_help(&d);
                reveal(crate::directive::model_from_help);
                assert(d@.payload =~~= spec_payload(
                    shape_of(CommandId::ProtoForce),
                    char_views(args@),
                ));
            }
            LineParseResult::Success(d)
        }
    } else if str_eq(command, "remote-random") {
        let d = ConfigDirective::RemoteRandom;
        proof {
            model_via_help(&d);
            reveal(crate::directive::model_from_help);
            assert(d@.payload =~~= spec_payload(
                shape_of(CommandId::RemoteRandom),
                char_views(args@),
            ));
        }
        LineParseResult::Success(d)
    } else if str_eq(command, "proto") {
        if args.len() < 1 {
            LineParseResult::NotEnoughArguments
        } else {
            let d = ConfigDirective::Proto { p: arg_at(args, 0) };
            proof {
                model_via_help(&d);
                reveal(crate::directive::model_from_help);
                assert(d@.payload =~~= spec_payload(
                    shape_of(CommandId::Proto),
                    char_views(args@),
                ));
            }
            LineParseResult::Success(d)
        }
    } else if str_eq(command, "connect-retry") {
        if args.len() < 1 {
            LineParseResult::NotEnoughArguments
        } else {
            let d = ConfigDirective::ConnectRetry { n: arg_at(args, 0), max: opt_arg(args, 1) };
            proof {
                model_via_help(&d);
                reveal(crate::directive::model_from_help);
                assert(d@.payload =~~= spec_payload(
                    shape_of(CommandId::ConnectRetry),
                    char_views(args@),
                ));
            }
            LineParseResult::Success(d)
        }
    } else if str_eq(command, "connect-retry-max") {
        if args.len() < 1 {
            LineParseResult::NotEnoughArguments
        } else {
            let d = ConfigDirective::ConnectRetryMax { n: arg_at(args, 0) };
            proof {
                model_via_help(&d);
                reveal(crate::directive::model_from_help);
                assert(d@.payload =~~= spec_payload(
                    shape_of(CommandId::ConnectRetryMax),
                    char_views(args@),
                ));
            }
            LineParseResult::Success(d)
        }
    } else if str_eq(command, "show-proxy-settings") {
        let d = ConfigDirective::ShowProxySettings;
        proof {
            model_via_help(&d);
            reveal(crate::directive::model_from_help);
            assert(d@.payload =~~= spec_payload(
                shape_of(CommandId::ShowProxySettings),
                char_views(args@),
            ));
        }
        LineParseResult::Success(d)
    } else {
        parse_from_http_proxy(command, args)
    }
}

/// Dispatch among the commands `http-proxy` through `nobind`.
#[verifier::rlimit(100)]
fn parse_from_http_proxy(command: &str, args: &Vec<String>) -> (r: LineParseResult)
    ensures
        r@ == spec_line_outcome(command_id_from_http_proxy(command@), char_views(args@)),
{
    proof {
        reveal(crate::registry::command_id_from_http_proxy);
    }
    if str_eq(command, "http-proxy") {
        if args.len() < 2 {
            LineParseResult::NotEnoughArguments
        } else {
            let d = ConfigDirective::HttpProxy {
                server: arg_at(args, 0),
                port: arg_at(args, 1),
                authfile_or_auto_or_auto_nct: opt_arg(args, 2),
                auth_method: opt_arg(args, 3),
            };
            proof {
                model_via_http_proxy(&d);
                reveal(crate::directive::model_from_http_proxy);
                assert(d@.payload =~~= spec_payload(
                    shape_of(CommandId::HttpProxy),
                    char_views(args@),
                ));
            }
            LineParseResult::Success(d)
        }
    } else if str_eq(command, "http-proxy-option") {
        if args.len() < 1 {
            LineParseResult::NotEnoughArguments
        } else {
            let d = ConfigDirective::HttpProxyOption {
                http_proxy_option_type: arg_at(args, 0),
                parm: opt_arg(args, 1),
            };
            proof {
                model_via_http_proxy(&d);
                reveal(crate::directive::model_from_http_proxy);
                assert(d@.payload =~~= spec_payload(
                    shape_of(CommandId::HttpProxyOption),
                    char_views(args@),
                ));
            }
            LineParseResult::Success(d)
        }
    } else if str_eq(command, "http-proxy-user-type") {
        if args.len() == 0 {
            LineParseResult::NotEnoughArguments
        } else {
            let d = ConfigDirective::HttpProxyUserPass {
                file: File::FilePath(arg_at(args, 0)),
            };
            proof {
                model_via_http_proxy(&d);
                reveal(crate::directive::model_from_http_proxy);
                assert(d@.payload =~~= spec_payload(
                    shape_of(CommandId::HttpProxyUserPass),
                    char_views(args@),
                ));
            }
            LineParseResult::Success(d)
        }
    } else if str_eq(command, "socks-proxy") {
        if args.len() < 1 {
            LineParseResult::NotEnoughArguments
        } else {
            let d = ConfigDirective::SocksProxy {
                server: arg_at(args, 0),
                port: opt_arg(args, 1),
                authfile: opt_arg(args, 2),
            };
            proof {
                model_via_http_proxy(&d);
                reveal(crate::directive::model_from_http_proxy);
                assert(d@.payload =~~= spec_payload(
                    shape_of(CommandId::SocksProxy),
                    char_views(args@),
                ));
            }
            LineParseResult::Success(d)
        }
    } else if str_eq(command, "resolv-retry") {
        if args.len() < 1 {
            LineParseResult::NotEnoughArguments
        } else {
            let d = ConfigDirective::ResolvRetry { n: arg_at(args, 0) };
            proof {
                model_via_http_proxy(&d);
                reveal(crate::directive::model_from_http_proxy);
                assert(d@.payload =~~= spec_payload(
                    shape_of(CommandId::ResolvRetry),
                    char_views(args@),
                ));
            }
            LineParseResult::Success(d)
        }
    } else if str_eq(command, "float") {
        let d = ConfigDirective::Float;
        proof {
            model_via_http_proxy(&d);
            reveal(crate::directive::model_from_http_proxy);
            assert(d@.payload =~~= spec_payload(
                shape_of(CommandId::Float),
                char_views(args@),
            ));
        }
        LineParseResult::Success(d)
    } else if str_eq(command, "ipchange") {
        if args.len() < 1 {
            LineParseResult::NotEnoughArguments
        } else {
            let d = ConfigDirective::Ipchange { cmd: arg_at(args, 0) };
            proof {
                model_via_http_proxy(&d);
                reveal(crate::directive::model_from_http_proxy);
                assert(d@.payload =~~= spec_payload(
                    shape_of(CommandId::Ipchange),
                    char_views(args@),
                ));
            }
            LineParseResult::Success(d)
        }
    } else if str_eq(command, "port") {
        if args.len() < 1 {
            LineParseResult::NotEnoughArguments
        } else {
            let d = ConfigDirective::Port { port: arg_at(args, 0) };
            proof {
                model_via_http_proxy(&d);
                reveal(crate::directive::model_from_http_proxy);
                assert(d@.payload =~~= spec_payload(
                    shape_of(CommandId::Port),
                    char_views(args@),
                ));
            }
            LineParseResult::Success(d)
        }
    } else if str_eq(command, "lport") {
        if args.len() < 1 {
            LineParseResult::NotEnoughArguments
        } else {
            let d = ConfigDirective::Lport { port: arg_at(args, 0) };
            proof {
                model_via_http_proxy(&d);
                reveal(crate::directive::model_from_http_proxy);
                assert(d@.payload =~~= spec_payload(
                    shape_of(CommandId::Lport),
                    char_views(args@),
                ));
            }
            LineParseResult::Success(d)
        }
    } else if str_eq(command, "rport") {
        if args.len() < 1 {
            LineParseResult::NotEnoughArguments
        } else {
            let d = ConfigDirective::Rport { port: arg_at(args, 0) };
            proof {
                model_via_http_proxy(&d);
                reveal(crate::directive::model_from_http_proxy);
                assert(d@.payload =~~= spec_payload(
                    shape_of(CommandId::Rport),
                    char_views(args@),
                ));
            }
            LineParseResult::Success(d)
        }
    } else if str_eq(command, "bind") {
        let d = ConfigDirective::Bind { ipv6only: opt_arg(args, 0) };
        proof {
            model_via_http_proxy(&d);
            reveal(crate::directive::model_from_http_proxy);
            assert(d@.payload =~~= spec_payload(
                shape_of(CommandId::Bind),
                char_views(args@),
            ));
        }
        LineParseResult::Success(d)
    } else if str_eq(command, "nobind") {
        let d = ConfigDirective::Nobind;
        proof {
            model_via_http_proxy(&d);
            reveal(crate::directive::model_from_http_proxy);
            assert(d@.payload =~~= spec_payload(
                shape_of(CommandId::Nobind),
                char_views(args@),
            ));
        }
        LineParseResult::Success(d)
    } else {
        parse_from_dev(command, args)
    }
}

/// Dispatch among the commands `dev` through `route-metric`.
#[verifier::rlimit(100)]
fn parse_from_dev(command: &str, args: &Vec<String>) -> (r: LineParseResult)
    ensures
        r@ == spec_line_outcome(command_id_from_dev(command@), char_views(args@)),
{
    proof {
        reveal(crate::registry::command_id_from_dev);
    }
    if str_eq(command, "dev") {
        if args.len() < 1 {
            LineParseResult::NotEnoughArguments
        } else {
            let d = ConfigDirective::Dev { devarg: arg_at(args, 0) };
            proof {
                model_via_dev(&d);
                reveal(crate::directive::model_from_dev);
                assert(d@.payload =~~= spec_payload(
                    shape_of(CommandId::Dev),
                    char_views(args@),
                ));
            }
            LineParseResult::Success(d)
        }
    } else if str_eq(command, "dev-type") {
        if args.len() < 1 {
            LineParseResult::NotEnoughArguments
        } else {
            let d = ConfigDirective::DevType { device_type: arg_at(args, 0) };
            proof {
                model_via_dev(&d);
                reveal(crate::directive::model_from_dev);
                assert(d@.payload =~~= spec_payload(
                    shape_of(CommandId::DevType),
                    char_views(args@),
                ));
            }
            LineParseResult::Success(d)
        }
    } else if str_eq(command, "topology") {
        if args.len() < 1 {
            LineParseResult::NotEnoughArguments
        } else {
            let d = ConfigDirective::Topology { mode: arg_at(args, 0) };
            proof {
                model_via_dev(&d);
                reveal(crate::directive::model_from_dev);
                assert(d@.payload =~~= spec_payload(
                    shape_of(CommandId::Topology),
                    char_views(args@),
                ));
            }
            LineParseResult::Success(d)
        }
    } else if str_eq(command, "dev-node") {
        if args.len() < 1 {
            LineParseResult::NotEnoughArguments
        } else {
            let d = ConfigDirective::DevNode { node: arg_at(args, 0) };
            proof {
                model_via_dev(&d);
                reveal(crate::directive::model_from_dev);
                assert(d@.payload =~~= spec_payload(
                    shape_of(CommandId::DevNode),
                    char_views(args@),
                ));
            }
            LineParseResult::Success(d)
        }
    } else if str_eq(command, "lladdr") {
        if args.len() < 1 {
            LineParseResult::NotEnoughArguments
        } else {
            let d = ConfigDirective::Lladdr { address: arg_at(args, 0) };
            proof {
                model_via_dev(&d);
                reveal(crate::directive::model_from_dev);
                assert(d@.payload =~~= spec_payload(
                    shape_of(CommandId::Lladdr),
                    char_views(args@),
                ));
            }
            LineParseResult::Success(d)
        }
    } else if str_eq(command, "iproute") {
        if args.len() < 1 {
            LineParseResult::NotEnoughArguments
        } else {
            let d = ConfigDirective::Iproute { cmd: arg_at(args, 0) };
            proof {
                model_via_dev(&d);
                reveal(crate::directive::model_from_dev);
                assert(d@.payload =~~= spec_payload(
                    shape_of(CommandId::Iproute),
                    char_views(args@),
                ));
            }
            LineParseResult::Success(d)
        }
    } else if str_eq(command, "ifconfig") {
        if args.len() < 2 {
            LineParseResult::NotEnoughArguments
        } else {
            let d = ConfigDirective::Ifconfig { l: arg_at(args, 0), rn: arg_at(args, 1) };
            proof {
                model_via_dev(&d);
                reveal(crate::directive::model_from_dev);
                assert(d@.payload =~~= spec_payload(
                    shape_of(CommandId::Ifconfig),
                    char_views(args@),
                ));
            }
            LineParseResult::Success(d)
        }
    } else if str_eq(command, "ifconfig-noexec") {
        let d = ConfigDirective::IfconfigNoexec;
        proof {
            model_via_dev(&d);
            reveal(crate::directive::model_from_dev);
            assert(d@.payload =~~= spec_payload(
                shape_of(CommandId::IfconfigNoexec),
                char_views(args@),
            ));
        }
        LineParseResult::Success(d)
    } else if str_eq(command, "ifconfig-nowarn") {
        let d = ConfigDirective::IfconfigNowarn;
        proof {
            model_via_dev(&d);
            reveal(crate::directive::model_from_dev);
            assert(d@.payload =~~= spec_payload(
                shape_of(CommandId::IfconfigNowarn),
                char_views(args@),
            ));
        }
        LineParseResult::Success(d)
    } else if str_eq(command, "route") {
        if args.len() < 1 {
            LineParseResult::NotEnoughArguments
        } else {
            let d = ConfigDirective::Route {
                network_or_ip: arg_at(args, 0),
                netmask: opt_arg(args, 1),
                gateway: opt_arg(args, 2),
                metric: opt_arg(args, 3),
            };
            proof {
                model_via_dev(&d);
                reveal(crate::directive::model_from_dev);
                assert(d@.payload =~~= spec_payload(
                    shape_of(CommandId::Route),
                    char_views(args@),
                ));
            }
            LineParseResult::Success(d)
        }
    } else if str_eq(command, "route-gateway") {
        if args.len() < 1 {
            LineParseResult::NotEnoughArguments
        } else {
            let d = ConfigDirective::RouteGateway { gw_or_dhcp: arg_at(args, 0) };
            proof {
                model_via_dev(&d);
                reveal(crate::directive::model_from_dev);
                assert(d@.payload =~~= spec_payload(
                    shape_of(CommandId::RouteGateway),
                    char_views(args@),
                ));
            }
            LineParseResult::Success(d)
        }
    } else if str_eq(command, "route-metric") {
        if args.len() < 1 {
            LineParseResult::NotEnoughArguments
        } else {
            let d = ConfigDirective::RouteMetric { m: arg_at(args, 0) };
            proof {
                model_via_dev(&d);
                reveal(crate::directive::model_from_dev);
                assert(d@.payload =~~= spec_payload(
                    shape_of(CommandId::RouteMetric),
                    char_views(args@),
                ));
            }
            LineParseResult::Success(d)
        }
    } else {
        parse_from_route_delay(command, args)
    }
}

/// Dispatch among the commands `route-delay` through `tun-mtu-extra`.
#[verifier::rlimit(100)]
fn parse_from_route_delay(command: &str, args: &Vec<String>) -> (r: LineParseResult)
    ensures
        r@ == spec_line_outcome(command_id_from_route_delay(command@), char_views(args@)),
{
    proof {
        reveal(crate::registry::command_id_from_route_delay);
    }
    if str_eq(command, "route-delay") {
        let d = ConfigDirective::RouteDelay { n: opt_arg(args, 0), w: opt_arg(args, 1) };
        proof {
            model_via_route_delay(&d);
            reveal(crate::directive::model_from_route_delay);
            assert(d@.payload =~~= spec_payload(
                shape_of(CommandId::RouteDelay),
                char_views(args@),
            ));
        }
        LineParseResult::Success(d)
    } else if str_eq(command, "route-up") {
        if args.len() < 1 {
            LineParseResult::NotEnoughArguments
        } else {
            let d = ConfigDirective::RouteUp { cmd: arg_at(args, 0) };
            proof {
                model_via_route_delay(&d);
                reveal(crate::directive::model_from_route_delay);
                assert(d@.payload =~~= spec_payload(
                    shape_of(CommandId::RouteUp),
                    char_views(args@),
                ));
            }
            LineParseResult::Success(d)
        }
    } else if str_eq(command, "route-pre-down") {
        if args.len() < 1 {
            LineParseResult::NotEnoughArguments
        } else {
            let d = ConfigDirective::RoutePreDown { cmd: arg_at(args, 0) };
            proof {
                model_via_route_delay(&d);
                reveal(crate::directive::model_from_route_delay);
                assert(d@.payload =~~= spec_payload(
                    shape_of(CommandId::RoutePreDown),
                    char_views(args@),
                ));
            }
            LineParseResult::Success(d)
        }
    } else if str_eq(command, "route-noexec") {
        let d = ConfigDirective::RouteNoexec;
        proof {
            model_via_route_delay(&d);
            reveal(crate::directive::model_from_route_delay);
            assert(d@.payload =~~= spec_payload(
                shape_of(CommandId::RouteNoexec),
                char_views(args@),
            ));
        }
        LineParseResult::Success(d)
    } else if str_eq(command, "route-nopull") {
        let d = ConfigDirective::RouteNopull;
        proof {
            model_via_route_delay(&d);
            reveal(crate::directive::model_from_route_delay);
            assert(d@.payload =~~= spec_payload(
                shape_of(CommandId::RouteNopull),
                char_views(args@),
            ));
        }
        LineParseResult::Success(d)
    } else if str_eq(command, "allow-pull-fqdn") {
        let d = ConfigDirective::AllowPullFqdn;
        proof {
            model_via_route_delay(&d);
            reveal(crate::directive::model_from_route_delay);
            assert(d@.payload =~~= spec_payload(
                shape_of(CommandId::AllowPullFqdn),
                char_views(args@),
            ));
        }
        LineParseResult::Success(d)
    } else if str_eq(command, "client-nat") {
        if args.len() < 4 {
            LineParseResult::NotEnoughArguments
        } else {
            let d = ConfigDirective::ClientNat {
                snat_or_dnat: arg_at(args, 0),
                network: arg_at(args, 1),
                netmask: arg_at(args, 2),
                alias: arg_at(args, 3),
            };
            proof {
                model_via_route_delay(&d);
                reveal(crate::directive::model_from_route_delay);
                assert(d@.payload =~~= spec_payload(
                    shape_of(CommandId::ClientNat),
                    char_views(args@),
                ));
            }
            LineParseResult::Success(d)
        }
    } else if str_eq(command, "redirect-gateway") {
        if args.len() == 0 {
            LineParseResult::NotEnoughArguments
        } else {
            let d = ConfigDirective::RedirectGateway { flags: all_args(args) };
            proof {
                model_via_route_delay(&d);
                reveal(crate::directive::model_from_route_delay);
                assert(d@.payload =~~= spec_payload(
                    shape_of(CommandId::RedirectGateway),
                    char_views(args@),
                ));
            }
            LineParseResult::Success(d)
        }
    } else if str_eq(command, "link-mtu") {
        if args.len() < 1 {
            LineParseResult::NotEnoughArguments
        } else {
            let d = ConfigDirective::LinkMtu { n: arg_at(args, 0) };
            proof {
                model_via_route_delay(&d);
                reveal(crate::directive::model_from_route_delay);
                assert(d@.payload =~~= spec_payload(
                    shape_of(CommandId::LinkMtu),
                    char_views(args@),
                ));
            }
            LineParseResult::Success(d)
        }
    } else if str_eq(command, "redirect-private") {
        let d = if args.len() > 0 {
            ConfigDirective::RedirectPrivate { flags: Some(all_args(args)) }
        } else {
            ConfigDirective::RedirectPrivate { flags: None }
        };
        proof {
            model_via_route_delay(&d);
            reveal(crate::directive::model_from_route_delay);
            assert(d@.payload =~~= spec_payload(
                shape_of(CommandId::RedirectPrivate),
                char_views(args@),
            ));
        }
        LineParseResult::Success(d)
    } else if str_eq(command, "tun-mtu") {
        if args.len() < 1 {
            LineParseResult::NotEnoughArguments
        } else {
            let d = ConfigDirective::TunMtu { n: arg_at(args, 0) };
            proof {
                model_via_route_delay(&d);
                reveal(crate::directive::model_from_route_delay);
                assert(d@.payload =~~= spec_payload(
                    shape_of(CommandId::TunMtu),
                    char_views(args@),
                ));
            }
            LineParseResult::Success(d)
        }
    } else if str_eq(command, "tun-mtu-extra") {
        if args.len() < 1 {
            LineParseResult::NotEnoughArguments
        } else {
            let d = ConfigDirective::TunMtuExtra { n: arg_at(args, 0) };
            proof {
                model_via_route_delay(&d);
                reveal(crate::directive::model_from_route_delay);
                assert(d@.payload =~~= spec_payload(
                    shape_of(CommandId::TunMtuExtra),
                    char_views(args@),
                ));
            }
            LineParseResult::Success(d)
        }
    } else {
        parse_from_mtu_disc(command, args)
    }
}

/// Dispatch among the commands `mtu-disc` through `ping`.
#[verifier::rlimit(100)]
fn parse_from_mtu_disc(command: &str, args: &Vec<String>) -> (r: LineParseResult)
    ensures
        r@ == spec_line_outcome(command_id_from_mtu_disc(command@), char_views(args@)),
{
    proof {
        reveal(crate::registry::command_id_from_mtu_disc);
    }
    if str_eq(command, "mtu-disc") {
        if args.len() < 1 {
            LineParseResult::NotEnoughArguments
        } else {
            let d = ConfigDirective::MtuDisc { mtu_disc_type: arg_at(args, 0) };
            proof {
                model_via_mtu_disc(&d);
                reveal(crate::directive::model_from_mtu_disc);
                assert(d@.payload =~~= spec_payload(
                    shape_of(CommandId::MtuDisc),
                    char_views(args@),
                ));
            }
            LineParseResult::Success(d)
        }
    } else if str_eq(command, "mtu-test") {
        let d = ConfigDirective::MtuTest;
        proof {
            model_via_mtu_disc(&d);
            reveal(crate::directive::model_from_mtu_disc);
            assert(d@.payload =~~= spec_payload(
                shape_of(CommandId::MtuTest),
                char_views(args@),
            ));
        }
        LineParseResult::Success(d)
    } else if str_eq(command, "fragment") {
        if args.len() < 1 {
            LineParseResult::NotEnoughArguments
        } else {
            let d = ConfigDirective::Fragment { max: arg_at(args, 0) };
            proof {
                model_via_mtu_disc(&d);
                reveal(crate::directive::model_from_mtu_disc);
                assert(d@.payload =~~= spec_payload(
                    shape_of(CommandId::Fragment),
                    char_views(args@),
                ));
            }
            LineParseResult::Success(d)
        }
    } else if str_eq(command, "mssfix") {
        if args.len() < 1 {
            LineParseResult::NotEnoughArguments
        } else {
            let d = ConfigDirective::Mssfix { max: arg_at(args, 0) };
            proof {
                model_via_mtu_disc(&d);
                reveal(crate::directive::model_from_mtu_disc);
                assert(d@.payload =~~= spec_payload(
                    shape_of(CommandId::Mssfix),
                    char_views(args@),
                ));
            }
            LineParseResult::Success(d)
        }
    } else if str_eq(command, "sndbuf") {
        if args.len() < 1 {
            LineParseResult::NotEnoughArguments
        } else {
            let d = ConfigDirective::Sndbuf { size: arg_at(args, 0) };
            proof {
                model_via_mtu_disc(&d);
                reveal(crate::directive::model_from_mtu_disc);
                assert(d@.payload =~~= spec_payload(
                    shape_of(CommandId::Sndbuf),
                    char_views(args@),
                ));
            }
            LineParseResult::Success(d)
        }
    } else if str_eq(command, "rcvbuf") {
        if args.len() < 1 {
            LineParseResult::NotEnoughArguments
        } else {
            let d = ConfigDirective::Rcvbuf { size: arg_at(args, 0) };
            proof {
                model_via_mtu_disc(&d);
                reveal(crate::directive::model_from_mtu_disc);
                assert(d@.payload =~~= spec_payload(
                    shape_of(CommandId::Rcvbuf),
                    char_views(args@),
                ));
            }
            LineParseResult::Success(d)
        }
    } else if str_eq(command, "mark") {
        if args.len() < 1 {
            LineParseResult::NotEnoughArguments
        } else {
            let d = ConfigDirective::Mark { value: arg_at(args, 0) };
            proof {
                model_via_mtu_disc(&d);
                reveal(crate::directive::model_from_mtu_disc);
                assert(d@.payload =~~= spec_payload(
                    shape_of(CommandId::Mark),
                    char_views(args@),
                ));
            }
            LineParseResult::Success(d)
        }
    } else if str_eq(command, "socket-flags") {
        if args.len() == 0 {
            LineParseResult::NotEnoughArguments
        } else {
            let d = ConfigDirective::SocketFlags { flags: all_args(args) };
            proof {
                model_via_mtu_disc(&d);
                reveal(crate::directive::model_from_mtu_disc);
                assert(d@.payload =~~= spec_payload(
                    shape_of(CommandId::SocketFlags),
                    char_views(args@),
                ));
            }
            LineParseResult::Success(d)
        }
    } else if str_eq(command, "txqueuelen") {
        if args.len() < 1 {
            LineParseResult::NotEnoughArguments
        } else {
            let d = ConfigDirective::Txqueuelen { n: arg_at(args, 0) };
            proof {
                model_via_mtu_disc(&d);
                reveal(crate::directive::model_from_mtu_disc);
                assert(d@.payload =~~= spec_payload(
                    shape_of(CommandId::Txqueuelen),
                    char_views(args@),
                ));
            }
            LineParseResult::Success(d)
        }
    } else if str_eq(command, "shaper") {
        if args.len() < 1 {
            LineParseResult::NotEnoughArguments
        } else {
            let d = ConfigDirective::Shaper { n: arg_at(args, 0) };
            proof {
                model_via_mtu_disc(&d);
                reveal(crate::directive::model_from_mtu_disc);
                assert(d@.payload =~~= spec_payload(
                    shape_of(CommandId::Shaper),
                    char_views(args@),
                ));
            }
            LineParseResult::Success(d)
        }
    } else if str_eq(command, "inactive") {
        if args.len() < 1 {
            LineParseResult::NotEnoughArguments
        } else {
            let d = ConfigDirective::Inactive { n: arg_at(args, 0), bytes: opt_arg(args, 1) };
            proof {
                model_via_mtu_disc(&d);
                reveal(crate::directive::model_from_mtu_disc);
                assert(d@.payload =~~= spec_payload(
                    shape_of(CommandId::Inactive),
                    char_views(args@),
                ));
            }
            LineParseResult::Success(d)
        }
    } else if str_eq(command, "ping") {
        if args.len() < 1 {
            LineParseResult::NotEnoughArguments
        } else {
            let d = ConfigDirective::Ping { n: arg_at(args, 0) };
            proof {
                model_via_mtu_disc(&d);
                reveal(crate::directive::model_from_mtu_disc);
                assert(d@.payload =~~= spec_payload(
                    shape_of(CommandId::Ping),
                    char_views(args@),
                ));
            }
            LineParseResult::Success(d)
        }
    } else {
        parse_from_ping_exit(command, args)
    }
}

/// Dispatch among the commands `ping-exit` through `down`.
#[verifier::rlimit(100)]
fn parse_from_ping_exit(command: &str, args: &Vec<String>) -> (r: LineParseResult)
    ensures
        r@ == spec_line_outcome(command_id_from_ping_exit(command@), char_views(args@)),
{
    proof {
        reveal(crate::registry::command_id_from_ping_exit);
    }
    if str_eq(command, "ping-exit") {
        if args.len() < 1 {
            LineParseResult::NotEnoughArguments
        } else {
            let d = ConfigDirective::PingExit { n: arg_at(args, 0) };
            proof {
                model_via_ping_exit(&d);
                reveal(crate::directive::model_from_ping_exit);
                assert(d@.payload =~~= spec_payload(
                    shape_of(CommandId::PingExit),
                    char_views(args@),
                ));
            }
            LineParseResult::Success(d)
        }
    } else if str_eq(command, "ping-restart") {
        if args.len() < 1 {
            LineParseResult::NotEnoughArguments
        } else {
            let d = ConfigDirective::PingRestart { n: arg_at(args, 0) };
            proof {
                model_via_ping_exit(&d);
                reveal(crate::directive::model_from_ping_exit);
                assert(d@.payload =~~= spec_payload(
                    shape_of(CommandId::PingRestart),
                    char_views(args@),
                ));
            }
            LineParseResult::Success(d)
        }
    } else if str_eq(command, "keepalive") {
        if args.len() < 2 {
            LineParseResult::NotEnoughArguments
        } else {
            let d = ConfigDirective::Keepalive {
                interval: arg_at(args, 0),
                timeout: arg_at(args, 1),
            };
            proof {
                model_via_ping_exit(&d);
                reveal(crate::directive::model_from_ping_exit);
                assert(d@.payload =~~= spec_payload(
                    shape_of(CommandId::Keepalive),
                    char_views(args@),
                ));
            }
            LineParseResult::Success(d)
        }
    } else if str_eq(command, "ping-timer-rem") {
        let d = ConfigDirective::PingTimerRem;
        proof {
            model_via_ping_exit(&d);
            reveal(crate::directive::model_from_ping_exit);
            assert(d@.payload =~~= spec_payload(
                shape_of(CommandId::PingTimerRem),
                char_views(args@),
            ));
        }
        LineParseResult::Success(d)
    } else if str_eq(command, "persist-tun") {
        let d = ConfigDirective::PersistTun;
        proof {
            model_via_ping_exit(&d);
            reveal(crate::directive::model_from_ping_exit);
            assert(d@.payload =~~= spec_payload(
                shape_of(CommandId::PersistTun),
                char_views(args@),
            ));
        }
        LineParseResult::Success(d)
    } else if str_eq(command, "persist-key") {
        let d = ConfigDirective::PersistKey;
        proof {
            model_via_ping_exit(&d);
            reveal(crate::directive::model_from_ping_exit);
            assert(d@.payload =~~= spec_payload(
                shape_of(CommandId::PersistKey),
                char_views(args@),
            ));
        }
        LineParseResult::Success(d)
    } else if str_eq(command, "persist-local-ip") {
        let d = ConfigDirective::PersistLocalIp;
        proof {
            model_via_ping_exit(&d);
            reveal(crate::directive::model_from_ping_exit);
            assert(d@.payload =~~= spec_payload(
                shape_of(CommandId::PersistLocalIp),
                char_views(args@),
            ));
        }
        LineParseResult::Success(d)
    } else if str_eq(command, "persist-remote-ip") {
        let d = ConfigDirective::PersistRemoteIp;
        proof {
            model_via_ping_exit(&d);
            reveal(crate::directive::model_from_ping_exit);
            assert(d@.payload =~~= spec_payload(
                shape_of(CommandId::PersistRemoteIp),
                char_views(args@),
            ));
        }
        LineParseResult::Success(d)
    } else if str_eq(command, "mlock") {
        let d = ConfigDirective::Mlock;
        proof {
            model_via_ping_exit(&d);
            reveal(crate::directive::model_from_ping_exit);
            assert(d@.payload =~~= spec_payload(
                shape_of(CommandId::Mlock),
                char_views(args@),
            ));
        }
        LineParseResult::Success(d)
    } else if str_eq(command, "up") {
        if args.len() < 1 {
            LineParseResult::NotEnoughArguments
        } else {
            let d = ConfigDirective::Up { cmd: arg_at(args, 0) };
            proof {
                model_via_ping_exit(&d);
                reveal(crate::directive::model_from_ping_exit);
                assert(d@.payload =~~= spec_payload(
                    shape_of(CommandId::Up),
                    char_views(args@),
                ));
            }
            LineParseResult::Success(d)
        }
    } else if str_eq(command, "up-delay") {
        let d = ConfigDirective::UpDelay;
        proof {
            model_via_ping_exit(&d);
            reveal(crate::directive::model_from_ping_exit);
            assert(d@.payload =~~= spec_payload(
                shape_of(CommandId::UpDelay),
                char_views(args@),
            ));
        }
        LineParseResult::Success(d)
    } else if str_eq(command, "down") {
        if args.len() < 1 {
            LineParseResult::NotEnoughArguments
        } else {
            let d = ConfigDirective::Down { cmd: arg_at(args, 0) };
            proof {
                model_via_ping_exit(&d);
                reveal(crate::directive::model_from_ping_exit);
                assert(d@.payload =~~= spec_payload(
                    shape_of(CommandId::Down),
                    char_views(args@),
                ));
            }
            LineParseResult::Success(d)
        }
    } else {
        parse_from_down_pre(command, args)
    }
}

/// Dispatch among the commands `down-pre` through `setcon`.
#[verifier::rlimit(100)]
fn parse_from_down_pre(command: &str, args: &Vec<String>) -> (r: LineParseResult)
    ensures
        r@ == spec_line_outcome(command_id_from_down_pre(command@), char_views(args@)),
{
    proof {
        reveal(crate::registry::command_id_from_down_pre);
    }
    if str_eq(command, "down-pre") {
        let d = ConfigDirective::DownPre;
        proof {
            model_via_down_pre(&d);
            reveal(crate::directive::model_from_down_pre);
            assert(d@.payload =~~= spec_payload(
                shape_of(CommandId::DownPre),
                char_views(args@),
            ));
        }
        LineParseResult::Success(d)
    } else if str_eq(command, "up-restart") {
        let d = ConfigDirective::UpRestart;
        proof {
            model_via_down_pre(&d);
            reveal(crate::directive::model_from_down_pre);
            assert(d@.payload =~~= spec_payload(
                shape_of(CommandId::UpRestart),
                char_views(args@),
            ));
        }
        LineParseResult::Success(d)
    } else if str_eq(command, "setenv") {
        if args.len() < 2 {
            LineParseResult::NotEnoughArguments
        } else {
            let d = ConfigDirective::Setenv { name: arg_at(args, 0), value: arg_at(args, 1) };
            proof {
                model_via_down_pre(&d);
                reveal(crate::directive::model_from_down_pre);
                assert(d@.payload =~~= spec_payload(
                    shape_of(CommandId::Setenv),
                    char_views(args@),
                ));
            }
            LineParseResult::Success(d)
        }
    } else if str_eq(command, "setenv-safe") {
        if args.len() < 2 {
            LineParseResult::NotEnoughArguments
        } else {
            let d = ConfigDirective::SetenvSafe {
                name: arg_at(args, 0),
                value: arg_at(args, 1),
            };
            proof {
                model_via_down_pre(&d);
                reveal(crate::directive::model_from_down_pre);
                assert(d@.payload =~~= spec_payload(
                    shape_of(CommandId::SetenvSafe),
                    char_views(args@),
                ));
            }
            LineParseResult::Success(d)
        }
    } else if str_eq(command, "ignore-unknown-option") {
        if args.len() == 0 {
            LineParseResult::NotEnoughArguments
        } else {
            let d = ConfigDirective::IgnoreUnknownOption { opts: all_args(args) };
            proof {
                model_via_down_pre(&d);
                reveal(crate::directive::model_from_down_pre);
                assert(d@.payload =~~= spec_payload(
                    shape_of(CommandId::IgnoreUnknownOption),
                    char_views(args@),
                ));
            }
            LineParseResult::Success(d)
        }
    } else if str_eq(command, "script-security") {
        if args.len() < 1 {
            LineParseResult::NotEnoughArguments
        } else {
            let d = ConfigDirective::ScriptSecurity { level: arg_at(args, 0) };
            proof {
                model_via_down_pre(&d);
                reveal(crate::directive::model_from_down_pre);
                assert(d@.payload =~~= spec_payload(
                    shape_of(CommandId::ScriptSecurity),
                    char_views(args@),
                ));
            }
            LineParseResult::Success(d)
        }
    } else if str_eq(command, "disable-occ") {
        let d = ConfigDirective::DisableOcc;
        proof {
            model_via_down_pre(&d);
            reveal(crate::directive::model_from_down_pre);
            assert(d@.payload =~~= spec_payload(
                shape_of(CommandId::DisableOcc),
                char_views(args@),
            ));
        }
        LineParseResult::Success(d)
    } else if str_eq(command, "user") {
        if args.len() < 1 {
            LineParseResult::NotEnoughArguments
        } else {
            let d = ConfigDirective::User { user: arg_at(args, 0) };
            proof {
                model_via_down_pre(&d);
                reveal(crate::directive::model_from_down_pre);
                assert(d@.payload =~~= spec_payload(
                    shape_of(CommandId::User),
                    char_views(args@),
                ));
            }
            LineParseResult::Success(d)
        }
    } else if str_eq(command, "group") {
        if args.len() < 1 {
            LineParseResult::NotEnoughArguments
        } else {
            let d = ConfigDirective::Group { group: arg_at(args, 0) };
            proof {
                model_via_down_pre(&d);
                reveal(crate::directive::model_from_down_pre);
                assert(d@.payload =~~= spec_payload(
                    shape_of(CommandId::Group),
                    char_views(args@),
                ));
            }
            LineParseResult::Success(d)
        }
    } else if str_eq(command, "cd") {
        if args.len() < 1 {
            LineParseResult::NotEnoughArguments
        } else {
            let d = ConfigDirective::Cd { dir: arg_at(args, 0) };
            proof {
                model_via_down_pre(&d);
                reveal(crate::directive::model_from_down_pre);
                assert(d@.payload =~~= spec_payload(
                    shape_of(CommandId::Cd),
                    char_views(args@),
                ));
            }
            LineParseResult::Success(d)
        }
    } else if str_eq(command, "chroot") {
        if args.len() < 1 {
            LineParseResult::NotEnoughArguments
        } else {
            let d = ConfigDirective::Chroot { dir: arg_at(args, 0) };
            proof {
                model_via_down_pre(&d);
                reveal(crate::directive::model_from_down_pre);
                assert(d@.payload =~~= spec_payload(
                    shape_of(CommandId::Chroot),
                    char_views(args@),
                ));
            }
            LineParseResult::Success(d)
        }
    } else if str_eq(command, "setcon") {
        if args.len() < 1 {
            LineParseResult::NotEnoughArguments
        } else {
            let d = ConfigDirective::Setcon { context: arg_at(args, 0) };
            proof {
                model_via_down_pre(&d);
                reveal(crate::directive::model_from_down_pre);
                assert(d@.payload =~~= spec_payload(
                    shape_of(CommandId::Setcon),
                    char_views(args@),
                ));
            }
            LineParseResult::Success(d)
        }
    } else {
        parse_from_daemon(command, args)
    }
}

/// Dispatch among the commands `daemon` through `fast-io`.
#[verifier::rlimit(100)]
fn parse_from_daemon(command: &str, args: &Vec<String>) -> (r: LineParseResult)
    ensures
        r@ == spec_line_outcome(command_id_from_daemon(command@), char_views(args@)),
{
    proof {
        reveal(crate::registry::command_id_from_daemon);
    }
    if str_eq(command, "daemon") {
        let d = ConfigDirective::Daemon { progname: opt_arg(args, 0) };
        proof {
            model_via_daemon(&d);
            reveal(crate::directive::model_from_daemon);
            assert(d@.payload =~~= spec_payload(
                shape_of(CommandId::Daemon),
                char_views(args@),
            ));
        }
        LineParseResult::Success(d)
    } else if str_eq(command, "syslog") {
        let d = ConfigDirective::Syslog { progname: opt_arg(args, 0) };
        proof {
            model_via_daemon(&d);
            reveal(crate::directive::model_from_daemon);
            assert(d@.payload =~~= spec_payload(
                shape_of(CommandId::Syslog),
                char_views(args@),
            ));
        }
        LineParseResult::Success(d)
    } else if str_eq(command, "errors-to-stderr") {
        let d = ConfigDirective::ErrorsToStderr;
        proof {
            model_via_daemon(&d);
            reveal(crate::directive::model_from_daemon);
            assert(d@.payload =~~= spec_payload(
                shape_of(CommandId::ErrorsToStderr),
                char_views(args@),
            ));
        }
        LineParseResult::Success(d)
    } else if str_eq(command, "passtos") {
        let d = ConfigDirective::Passtos;
        proof {
            model_via_daemon(&d);
            reveal(crate::directive::model_from_daemon);
            assert(d@.payload =~~= spec_payload(
                shape_of(CommandId::Passtos),
                char_views(args@),
            ));
        }
        LineParseResult::Success(d)
    } else if str_eq(command, "inetd") {
        let d = ConfigDirective::Inetd {
            wait_or_nowait: opt_arg(args, 0),
            progname: opt_arg(args, 1),
        };
        proof {
            model_via_daemon(&d);
            reveal(crate::directive::model_from_daemon);
            assert(d@.payload =~~= spec_payload(
                shape_of(CommandId::Inetd),
                char_views(args@),
            ));
        }
        LineParseResult::Success(d)
    } else if str_eq(command, "log") {
        if args.len() < 1 {
            LineParseResult::NotEnoughArguments
        } else {
            let d = ConfigDirective::Log { file: arg_at(args, 0) };
            proof {
                model_via_daemon(&d);
                reveal(crate::directive::model_from_daemon);
                assert(d@.payload =~~= spec_payload(
                    shape_of(CommandId::Log),
                    char_views(args@),
                ));
            }
            LineParseResult::Success(d)
        }
    } else if str_eq(command, "log-append") {
        if args.len() < 1 {
            LineParseResult::NotEnoughArguments
        } else {
            let d = ConfigDirective::LogAppend { file: arg_at(args, 0) };
            proof {
                model_via_daemon(&d);
                reveal(crate::directive::model_from_daemon);
                assert(d@.payload =~~= spec_payload(
                    shape_of(CommandId::LogAppend),
                    char_views(args@),
                ));
            }
            LineParseResult::Success(d)
        }
    } else if str_eq(command, "suppress-timestamps") {
        let d = ConfigDirective::SuppressTimestamps;
        proof {
            model_via_daemon(&d);
            reveal(crate::directive::model_from_daemon);
            assert(d@.payload =~~= spec_payload(
                shape_of(CommandId::SuppressTimestamps),
                char_views(args@),
            ));
        }
        LineParseResult::Success(d)
    } else if str_eq(command, "machine-readable-output") {
        let d = ConfigDirective::MachineReadableOutput;
        proof {
            model_via_daemon(&d);
            reveal(crate::directive::model_from_daemon);
            assert(d@.payload =~~= spec_payload(
                shape_of(CommandId::MachineReadableOutput),
                char_views(args@),
            ));
        }
        LineParseResult::Success(d)
    } else if str_eq(command, "writepid") {
        if args.len() < 1 {
            LineParseResult::NotEnoughArguments
        } else {
            let d = ConfigDirective::Writepid { file: arg_at(args, 0) };
            proof {
                model_via_daemon(&d);
                reveal(crate::directive::model_from_daemon);
                assert(d@.payload =~~= spec_payload(
                    shape_of(CommandId::Writepid),
                    char_views(args@),
                ));
            }
            LineParseResult::Success(d)
        }
    } else if str_eq(command, "nice") {
        if args.len() < 1 {
            LineParseResult::NotEnoughArguments
        } else {
            let d = ConfigDirective::Nice { n: arg_at(args, 0) };
            proof {
                model_via_daemon(&d);
                reveal(crate::directive::model_from_daemon);
                assert(d@.payload =~~= spec_payload(
                    shape_of(CommandId::Nice),
                    char_views(args@),
                ));
            }
            LineParseResult::Success(d)
        }
    } else if str_eq(command, "fast-io") {
        let d = ConfigDirective::FastIo;
        proof {
            model_via_daemon(&d);
            reveal(crate::directive::model_from_daemon);
            assert(d@.payload =~~= spec_payload(
                shape_of(CommandId::FastIo),
                char_views(args@),
            ));
        }
        LineParseResult::Success(d)
    } else {
        parse_from_multihome(command, args)
    }
}

/// Dispatch among the commands `multihome` through `management-client`.
#[verifier::rlimit(100)]
fn parse_from_multihome(command: &str, args: &Vec<String>) -> (r: LineParseResult)
    ensures
        r@ == spec_line_outcome(command_id_from_multihome(command@), char_views(args@)),
{
    proof {
        reveal(crate::registry::command_id_from_multihome);
    }
    if str_eq(command, "multihome") {
        let d = ConfigDirective::Multihome;
        proof {
            model_via_multihome(&d);
            reveal(crate::directive::model_from_multihome);
            assert(d@.payload =~~= spec_payload(
                shape_of(CommandId::Multihome),
                char_views(args@),
            ));
        }
        LineParseResult::Success(d)
    } else if str_eq(command, "echo") {
        let d = if args.len() > 0 {
            ConfigDirective::Echo { parms: Some(all_args(args)) }
        } else {
            ConfigDirective::Echo { parms: None }
        };
        proof {
            model_via_multihome(&d);
            reveal(crate::directive::model_from_multihome);
            assert(d@.payload =~~= spec_payload(
                shape_of(CommandId::Echo),
                char_views(args@),
            ));
        }
        LineParseResult::Success(d)
    } else if str_eq(command, "remap-usr1") {
        if args.len() < 1 {
            LineParseResult::NotEnoughArguments
        } else {
            let d = ConfigDirective::RemapUsr1 { signal: arg_at(args, 0) };
            proof {
                model_via_multihome(&d);
                reveal(crate::directive::model_from_multihome);
                assert(d@.payload =~~= spec_payload(
                    shape_of(CommandId::RemapUsr1),
                    char_views(args@),
                ));
            }
            LineParseResult::Success(d)
        }
    } else if str_eq(command, "verb") {
        if args.len() < 1 {
            LineParseResult::NotEnoughArguments
        } else {
            let d = ConfigDirective::Verb { n: arg_at(args, 0) };
            proof {
                model_via_multihome(&d);
                reveal(crate::directive::model_from_multihome);
                assert(d@.payload =~~= spec_payload(
                    shape_of(CommandId::Verb),
                    char_views(args@),
                ));
            }
            LineParseResult::Success(d)
        }
    } else if str_eq(command, "status") {
        if args.len() < 1 {
            LineParseResult::NotEnoughArguments
        } else {
            let d = ConfigDirective::Status { file: arg_at(args, 0), n: opt_arg(args, 1) };
            proof {
                model_via_multihome(&d);
                reveal(crate::directive::model_from_multihome);
                assert(d@.payload =~~= spec_payload(
                    shape_of(CommandId::Status),
                    char_views(args@),
                ));
            }
            LineParseResult::Success(d)
        }
    } else if str_eq(command, "status-version") {
        let d = ConfigDirective::StatusVersion { n: opt_arg(args, 0) };
        proof {
            model_via_multihome(&d);
            reveal(crate::directive::model_from_multihome);
            assert(d@.payload =~~= spec_payload(
                shape_of(CommandId::StatusVersion),
                char_views(args@),
            ));
        }
        LineParseResult::Success(d)
    } else if str_eq(command, "mute") {
        if args.len() < 1 {
            LineParseResult::NotEnoughArguments
        } else {
            let d = ConfigDirective::Mute { n: arg_at(args, 0) };
            proof {
                model_via_multihome(&d);
                reveal(crate::directive::model_from_multihome);
                assert(d@.payload =~~= spec_payload(
                    shape_of(CommandId::Mute),
                    char_views(args@),
                ));
            }
            LineParseResult::Success(d)
        }
    } else if str_eq(command, "compress") {
        let d = ConfigDirective::Compress { algorithm: opt_arg(args, 0) };
        proof {
            model_via_multihome(&d);
            reveal(crate::directive::model_from_multihome);
            assert(d@.payload =~~= spec_payload(
                shape_of(CommandId::Compress),
                char_views(args@),
            ));
        }
        LineParseResult::Success(d)
    } else if str_eq(command, "comp-lzo") {
        let d = ConfigDirective::CompLzo { mode: opt_arg(args, 0) };
        proof {
            model_via_multihome(&d);
            reveal(crate::directive::model_from_multihome);
            assert(d@.payload =~~= spec_payload(
                shape_of(CommandId::CompLzo),
                char_views(args@),
            ));
        }
        LineParseResult::Success(d)
    } else if str_eq(command, "comp-noadapt") {
        let d = ConfigDirective::CompNoadapt;
        proof {
            model_via_multihome(&d);
            reveal(crate::directive::model_from_multihome);
            assert(d@.payload =~~= spec_payload(
                shape_of(CommandId::CompNoadapt),
                char_views(args@),
            ));
        }
        LineParseResult::Success(d)
    } else if str_eq(command, "management") {
        if args.len() < 2 {
            LineParseResult::NotEnoughArguments
        } else {
            let d = ConfigDirective::Management {
                ip: arg_at(args, 0),
                port: arg_at(args, 1),
                pw_file: opt_arg(args, 2),
            };
            proof {
                model_via_multihome(&d);
                reveal(crate::directive::model_from_multihome);
                assert(d@.payload =~~= spec_payload(
                    shape_of(CommandId::Management),
                    char_views(args@),
                ));
            }
            LineParseResult::Success(d)
        }
    } else if str_eq(command, "management-client") {
        let d = ConfigDirective::ManagementClient;
        proof {
            model_via_multihome(&d);
            reveal(crate::directive::model_from_multihome);
            assert(d@.payload =~~= spec_payload(
                shape_of(CommandId::ManagementClient),
                char_views(args@),
            ));
        }
        LineParseResult::Success(d)
    } else {
        parse_from_management_query_passwords(command, args)
    }
}

/// Dispatch among the commands `management-query-passwords` through `management-client-pf`.
#[verifier::rlimit(100)]
fn parse_from_management_query_passwords(command: &str, args: &Vec<String>) -> (r: LineParseResult)
    ensures
        r@ == spec_line_outcome(command_id_from_management_query_passwords(command@), char_views(args@)),
{
    proof {
        reveal(crate::registry::command_id_from_management_query_passwords);
    }
    if str_eq(command, "management-query-passwords") {
        let d = ConfigDirective::ManagementQueryPasswords;
        proof {
            model_via_management_query_passwords(&d);
            reveal(crate::directive::model_from_management_query_passwords);
            assert(d@.payload =~~= spec_payload(
                shape_of(CommandId::ManagementQueryPasswords),
                char_views(args@),
            ));
        }
        LineParseResult::Success(d)
    } else if str_eq(command, "management-query-proxy") {
        let d = ConfigDirective::ManagementQueryProxy;
        proof {
            model_via_management_query_passwords(&d);
            reveal(crate::directive::model_from_management_query_passwords);
            assert(d@.payload =~~= spec_payload(
                shape_of(CommandId::ManagementQueryProxy),
                char_views(args@),
            ));
        }
        LineParseResult::Success(d)
    } else if str_eq(command, "management-query-remote") {
        let d = ConfigDirective::ManagementQueryRemote;
        proof {
            model_via_management_query_passwords(&d);
            reveal(crate::directive::model_from_management_query_passwords);
            assert(d@.payload =~~= spec_payload(
                shape_of(CommandId::ManagementQueryRemote),
                char_views(args@),
            ));
        }
        LineParseResult::Success(d)
    } else if str_eq(command, "management-external-key") {
        let d = ConfigDirective::ManagementExternalKey;
        proof {
            model_via_management_query_passwords(&d);
            reveal(crate::directive::model_from_management_query_passwords);
            assert(d@.payload =~~= spec_payload(
                shape_of(CommandId::ManagementExternalKey),
                char_views(args@),
            ));
        }
        LineParseResult::Success(d)
    } else if str_eq(command, "management-external-cert") {
        if args.len() < 1 {
            LineParseResult::NotEnoughArguments
        } else {
            let d = ConfigDirective::ManagementExternalCert {
                certificate_hint: arg_at(args, 0),
            };
            proof {
                model_via_management_query_passwords(&d);
                reveal(crate::directive::model_from_management_query_passwords);
                assert(d@.payload =~~= spec_payload(
                    shape_of(CommandId::ManagementExternalCert),
                    char_views(args@),
                ));
            }
            LineParseResult::Success(d)
        }
    } else if str_eq(command, "management-forget-disconnect") {
        let d = ConfigDirective::ManagementForgetDisconnect;
        proof {
            model_via_management_query_passwords(&d);
            reveal(crate::directive::model_from_management_query_passwords);
            assert(d@.payload =~~= spec_payload(
                shape_of(CommandId::ManagementForgetDisconnect),
                char_views(args@),
            ));
        }
        LineParseResult::Success(d)
    } else if str_eq(command, "management-hold") {
        let d = ConfigDirective::ManagementHold;
        proof {
            model_via_management_query_passwords(&d);
            reveal(crate::directive::model_from_management_query_passwords);
            assert(d@.payload =~~= spec_payload(
                shape_of(CommandId::ManagementHold),
                char_views(args@),
            ));
        }
        LineParseResult::Success(d)
    } else if str_eq(command, "management-signal") {
        let d = ConfigDirective::ManagementSignal;
        proof {
            model_via_management_query_passwords(&d);
            reveal(crate::directive::model_from_management_query_passwords);
            assert(d@.payload =~~= spec_payload(
                shape_of(CommandId::ManagementSignal),
                char_views(args@),
            ));
        }
        LineParseResult::Success(d)
    } else if str_eq(command, "management-log-cache") {
        if args.len() < 1 {
            LineParseResult::NotEnoughArguments
        } else {
            let d = ConfigDirective::ManagementLogCache { n: arg_at(args, 0) };
            proof {
                model_via_management_query_passwords(&d);
                reveal(crate::directive::model_from_management_query_passwords);
                assert(d@.payload =~~= spec_payload(
                    shape_of(CommandId::ManagementLogCache),
                    char_views(args@),
                ));
            }
            LineParseResult::Success(d)
        }
    } else if str_eq(command, "management-up-down") {
        let d = ConfigDirective::ManagementUpDown;
        proof {
            model_via_management_query_passwords(&d);
            reveal(crate::directive::model_from_management_query_passwords);
            assert(d@.payload =~~= spec_payload(
                shape_of(CommandId::ManagementUpDown),
                char_views(args@),
            ));
        }
        LineParseResult::Success(d)
    } else if str_eq(command, "management-client-auth") {
        let d = ConfigDirective::ManagementClientAuth;
        proof {
            model_via_management_query_passwords(&d);
            reveal(crate::directive::model_from_management_query_passwords);
            assert(d@.payload =~~= spec_payload(
                shape_of(CommandId::ManagementClientAuth),
                char_views(args@),
            ));
        }
        LineParseResult::Success(d)
    } else if str_eq(command, "management-client-pf") {
        let d = ConfigDirective::ManagementClientPf;
        proof {
            model_via_management_query_passwords(&d);
            reveal(crate::directive::model_from_management_query_passwords);
            assert(d@.payload =~~= spec_payload(
                shape_of(CommandId::ManagementClientPf),
                char_views(args@),
            ));
        }
        LineParseResult::Success(d)
    } else {
        parse_from_management_client_user(command, args)
    }
}

/// Dispatch among the commands `management-client-user` through `ifconfig-pool-persist`.
#[verifier::rlimit(100)]
fn parse_from_management_client_user(command: &str, args: &Vec<String>) -> (r: LineParseResult)
    ensures
        r@ == spec_line_outcome(command_id_from_management_client_user(command@), char_views(args@)),
{
    proof {
        reveal(crate::registry::command_id_from_management_client_user);
    }
    if str_eq(command, "management-client-user") {
        if args.len() < 1 {
            LineParseResult::NotEnoughArguments
        } else {
            let d = ConfigDirective::ManagementClientUser { u: arg_at(args, 0) };
            proof {
                model_via_management_client_user(&d);
                reveal(crate::directive::model_from_management_client_user);
                assert(d@.payload =~~= spec_payload(
                    shape_of(CommandId::ManagementClientUser),
                    char_views(args@),
                ));
            }
            LineParseResult::Success(d)
        }
    } else if str_eq(command, "management-client-group") {
        if args.len() < 1 {
            LineParseResult::NotEnoughArguments
        } else {
            let d = ConfigDirective::ManagementClientGroup { g: arg_at(args, 0) };
            proof {
                model_via_management_client_user(&d);
                reveal(crate::directive::model_from_management_client_user);
                assert(d@.payload =~~= spec_payload(
                    shape_of(CommandId::ManagementClientGroup),
                    char_views(args@),
                ));
            }
            LineParseResult::Success(d)
        }
    } else if str_eq(command, "plugin") {
        if args.len() < 1 {
            LineParseResult::NotEnoughArguments
        } else {
            let d = ConfigDirective::Plugin {
                module_pathname: arg_at(args, 0),
                init_string: opt_arg(args, 1),
            };
            proof {
                model_via_management_client_user(&d);
                reveal(crate::directive::model_from_management_client_user);
                assert(d@.payload =~~= spec_payload(
                    shape_of(CommandId::Plugin),
                    char_views(args@),
                ));
            }
            LineParseResult::Success(d)
        }
    } else if str_eq(command, "keying-material-exporter") {
        if args.len() < 2 {
            LineParseResult::NotEnoughArguments
        } else {
            let d = ConfigDirective::KeyingMaterialExporter {
                label: arg_at(args, 0),
                len: arg_at(args, 1),
            };
            proof {
                model_via_management_client_user(&d);
                reveal(crate::directive::model_from_management_client_user);
                assert(d@.payload =~~= spec_payload(
                    shape_of(CommandId::KeyingMaterialExporter),
                    char_views(args@),
                ));
            }
            LineParseResult::Success(d)
        }
    } else if str_eq(command, "server") {
        if args.len() < 2 {
            LineParseResult::NotEnoughArguments
        } else {
            let d = ConfigDirective::Server {
                network: arg_at(args, 0),
                netmask: arg_at(args, 1),
                nopool: opt_arg(args, 2),
            };
            proof {
                model_via_management_client_user(&d);
                reveal(crate::directive::model_from_management_client_user);
                assert(d@.payload =~~= spec_payload(
                    shape_of(CommandId::Server),
                    char_views(args@),
                ));
            }
            LineParseResult::Success(d)
        }
    } else if str_eq(command, "push") {
        if args.len() < 1 {
            LineParseResult::NotEnoughArguments
        } else {
            let d = ConfigDirective::Push { option: arg_at(args, 0) };
            proof {
                model_via_management_client_user(&d);
                reveal(crate::directive::model_from_management_client_user);
                assert(d@.payload =~~= spec_payload(
                    shape_of(CommandId::Push),
                    char_views(args@),
                ));
            }
            LineParseResult::Success(d)
        }
    } else if str_eq(command, "push-reset") {
        let d = ConfigDirective::PushReset;
        proof {
            model_via_management_client_user(&d);
            reveal(crate::directive::model_from_management_client_user);
            assert(d@.payload =~~= spec_payload(
                shape_of(CommandId::PushReset),
                char_views(args@),
            ));
        }
        LineParseResult::Success(d)
    } else if str_eq(command, "push-remove") {
        if args.len() < 1 {
            LineParseResult::NotEnoughArguments
        } else {
            let d = ConfigDirective::PushRemove { opt: arg_at(args, 0) };
            proof {
                model_via_management_client_user(&d);
                reveal(crate::directive::model_from_management_client_user);
                assert(d@.payload =~~= spec_payload(
                    shape_of(CommandId::PushRemove),
                    char_views(args@),
                ));
            }
            LineParseResult::Success(d)
        }
    } else if str_eq(command, "push-peer-info") {
        let d = ConfigDirective::PushPeerInfo;
        proof {
            model_via_management_client_user(&d);
            reveal(crate::directive::model_from_management_client_user);
            assert(d@.payload =~~= spec_payload(
                shape_of(CommandId::PushPeerInfo),
                char_views(args@),
            ));
        }
        LineParseResult::Success(d)
    } else if str_eq(command, "disable") {
        let d = ConfigDirective::Disable;
        proof {
            model_via_management_client_user(&d);
            reveal(crate::directive::model_from_management_client_user);
            assert(d@.payload =~~= spec_payload(
                shape_of(CommandId::Disable),
                char_views(args@),
            ));
        }
        LineParseResult::Success(d)
    } else if str_eq(command, "ifconfig-pool") {
        if args.len() < 2 {
            LineParseResult::NotEnoughArguments
        } else {
            let d = ConfigDirective::IfconfigPool {
                start_ip: arg_at(args, 0),
                end_ip: arg_at(args, 1),
                netmask: opt_arg(args, 2),
            };
            proof {
                model_via_management_client_user(&d);
                reveal(crate::directive::model_from_management_client_user);
                assert(d@.payload =~~= spec_payload(
                    shape_of(CommandId::IfconfigPool),
                    char_views(args@),
                ));
            }
            LineParseResult::Success(d)
        }
    } else if str_eq(command, "ifconfig-pool-persist") {
        if args.len() < 1 {
            LineParseResult::NotEnoughArguments
        } else {
            let d = ConfigDirective::IfconfigPoolPersist {
                file: arg_at(args, 0),
                seconds: opt_arg(args, 1),
            };
            proof {
                model_via_management_client_user(&d);
                reveal(crate::directive::model_from_management_client_user);
                assert(d@.payload =~~= spec_payload(
                    shape_of(CommandId::IfconfigPoolPersist),
                    char_views(args@),
                ));
            }
            LineParseResult::Success(d)
        }
    } else {
        parse_from_ifconfig_pool_linear(command, args)
    }
}

/// Dispatch among the commands `ifconfig-pool-linear` through `bcast-buffers`.
#[verifier::rlimit(100)]
fn parse_from_ifconfig_pool_linear(command: &str, args: &Vec<String>) -> (r: LineParseResult)
    ensures
        r@ == spec_line_outcome(command_id_from_ifconfig_pool_linear(command@), char_views(args@)),
{
    proof {
        reveal(crate::registry::command_id_from_ifconfig_pool_linear);
    }
    if str_eq(command, "ifconfig-pool-linear") {
        let d = ConfigDirective::IfconfigPoolLinear;
        proof {
            model_via_ifconfig_pool_linear(&d);
            reveal(crate::directive::model_from_ifconfig_pool_linear);
            assert(d@.payload =~~= spec_payload(
                shape_of(CommandId::IfconfigPoolLinear),
                char_views(args@),
            ));
        }
        LineParseResult::Success(d)
    } else if str_eq(command, "ifconfig-push") {
        if args.len() < 2 {
            LineParseResult::NotEnoughArguments
        } else {
            let d = ConfigDirective::IfconfigPush {
                local: arg_at(args, 0),
                remote_netmask: arg_at(args, 1),
                alias: opt_arg(args, 2),
            };
            proof {
                model_via_ifconfig_pool_linear(&d);
                reveal(crate::directive::model_from_ifconfig_pool_linear);
                assert(d@.payload =~~= spec_payload(
                    shape_of(CommandId::IfconfigPush),
                    char_views(args@),
                ));
            }
            LineParseResult::Success(d)
        }
    } else if str_eq(command, "iroute") {
        if args.len() < 1 {
            LineParseResult::NotEnoughArguments
        } else {
            let d = ConfigDirective::Iroute {
                network: arg_at(args, 0),
                netmask: opt_arg(args, 1),
            };
            proof {
                model_via_ifconfig_pool_linear(&d);
                reveal(crate::directive::model_from_ifconfig_pool_linear);
                assert(d@.payload =~~= spec_payload(
                    shape_of(CommandId::Iroute),
                    char_views(args@),
                ));
            }
            LineParseResult::Success(d)
        }
    } else if str_eq(command, "client-to-client") {
        let d = ConfigDirective::ClientToClient;
        proof {
            model_via_ifconfig_pool_linear(&d);
            reveal(crate::directive::model_from_ifconfig_pool_linear);
            assert(d@.payload =~~= spec_payload(
                shape_of(CommandId::ClientToClient),
                char_views(args@),
            ));
        }
        LineParseResult::Success(d)
    } else if str_eq(command, "duplicate-cn") {
        let d = ConfigDirective::DuplicateCn;
        proof {
            model_via_ifconfig_pool_linear(&d);
            reveal(crate::directive::model_from_ifconfig_pool_linear);
            assert(d@.payload =~~= spec_payload(
                shape_of(CommandId::DuplicateCn),
                char_views(args@),
            ));
        }
        LineParseResult::Success(d)
    } else if str_eq(command, "client-connect") {
        if args.len() < 1 {
            LineParseResult::NotEnoughArguments
        } else {
            let d = ConfigDirective::ClientConnect { cmd: arg_at(args, 0) };
            proof {
                model_via_ifconfig_pool_linear(&d);
                reveal(crate::directive::model_from_ifconfig_pool_linear);
                assert(d@.payload =~~= spec_payload(
                    shape_of(CommandId::ClientConnect),
                    char_views(args@),
                ));
            }
            LineParseResult::Success(d)
        }
    } else if str_eq(command, "client-disconnect") {
        if args.len() < 1 {
            LineParseResult::NotEnoughArguments
        } else {
            let d = ConfigDirective::ClientDisconnect { cmd: arg_at(args, 0) };
            proof {
                model_via_ifconfig_pool_linear(&d);
                reveal(crate::directive::model_from_ifconfig_pool_linear);
                assert(d@.payload =~~= spec_payload(
                    shape_of(CommandId::ClientDisconnect),
                    char_views(args@),
                ));
            }
            LineParseResult::Success(d)
        }
    } else if str_eq(command, "client-config-dir") {
        if args.len() < 1 {
            LineParseResult::NotEnoughArguments
        } else {
            let d = ConfigDirective::ClientConfigDir { dir: arg_at(args, 0) };
            proof {
                model_via_ifconfig_pool_linear(&d);
                reveal(crate::directive::model_from_ifconfig_pool_linear);
                assert(d@.payload =~~= spec_payload(
                    shape_of(CommandId::ClientConfigDir),
                    char_views(args@),
                ));
            }
            LineParseResult::Success(d)
        }
    } else if str_eq(command, "ccd-exclusive") {
        let d = ConfigDirective::CcdExclusive;
        proof {
            model_via_ifconfig_pool_linear(&d);
            reveal(crate::directive::model_from_ifconfig_pool_linear);
            assert(d@.payload =~~= spec_payload(
                shape_of(CommandId::CcdExclusive),
                char_views(args@),
            ));
        }
        LineParseResult::Success(d)
    } else if str_eq(command, "tmp-dir") {
        if args.len() < 1 {
            LineParseResult::NotEnoughArguments
        } else {
            let d = ConfigDirective::TmpDir { dir: arg_at(args, 0) };
            proof {
                model_via_ifconfig_pool_linear(&d);
                reveal(crate::directive::model_from_ifconfig_pool_linear);
                assert(d@.payload =~~= spec_payload(
                    shape_of(CommandId::TmpDir),
                    char_views(args@),
                ));
            }
            LineParseResult::Success(d)
        }
    } else if str_eq(command, "hash-size") {
        if args.len() < 2 {
            LineParseResult::NotEnoughArguments
        } else {
            let d = ConfigDirective::HashSize { r: arg_at(args, 0), v: arg_at(args, 1) };
            proof {
                model_via_ifconfig_pool_linear(&d);
                reveal(crate::directive::model_from_ifconfig_pool_linear);
                assert(d@.payload =~~= spec_payload(
                    shape_of(CommandId::HashSize),
                    char_views(args@),
                ));
            }
            LineParseResult::Success(d)
        }
    } else if str_eq(command, "bcast-buffers") {
        if args.len() < 1 {
            LineParseResult::NotEnoughArguments
        } else {
            let d = ConfigDirective::BcastBuffers { n: arg_at(args, 0) };
            proof {
                model_via_ifconfig_pool_linear(&d);
                reveal(crate::directive::model_from_ifconfig_pool_linear);
                assert(d@.payload =~~= spec_payload(
                    shape_of(CommandId::BcastBuffers),
                    char_views(args@),
                ));
            }
            LineParseResult::Success(d)
        }
    } else {
        parse_from_tcp_queue_limit(command, args)
    }
}

/// Dispatch among the commands `tcp-queue-limit` through `client-cert-not-required`.
#[verifier::rlimit(100)]
fn parse_from_tcp_queue_limit(command: &str, args: &Vec<String>) -> (r: LineParseResult)
    ensures
        r@ == spec_line_outcome(command_id_from_tcp_queue_limit(command@), char_views(args@)),
{
    proof {
        reveal(crate::registry::command_id_from_tcp_queue_limit);
    }
    if str_eq(command, "tcp-queue-limit") {
        if args.len() < 1 {
            LineParseResult::NotEnoughArguments
        } else {
            let d = ConfigDirective::TcpQueueLimit { n: arg_at(args, 0) };
            proof {
                model_via_tcp_queue_limit(&d);
                reveal(crate::directive::model_from_tcp_queue_limit);
                assert(d@.payload =~~= spec_payload(
                    shape_of(CommandId::TcpQueueLimit),
                    char_views(args@),
                ));
            }
            LineParseResult::Success(d)
        }
    } else if str_eq(command, "tcp-nodelay") {
        let d = ConfigDirective::TcpNodelay;
        proof {
            model_via_tcp_queue_limit(&d);
            reveal(crate::directive::model_from_tcp_queue_limit);
            assert(d@.payload =~~= spec_payload(
                shape_of(CommandId::TcpNodelay),
                char_views(args@),
            ));
        }
        LineParseResult::Success(d)
    } else if str_eq(command, "max-clients") {
        if args.len() < 1 {
            LineParseResult::NotEnoughArguments
        } else {
            let d = ConfigDirective::MaxClients { n: arg_at(args, 0) };
            proof {
                model_via_tcp_queue_limit(&d);
                reveal(crate::directive::model_from_tcp_queue_limit);
                assert(d@.payload =~~= spec_payload(
                    shape_of(CommandId::MaxClients),
                    char_views(args@),
                ));
            }
            LineParseResult::Success(d)
        }
    } else if str_eq(command, "max-routes-per-client") {
        if args.len() < 1 {
            LineParseResult::NotEnoughArguments
        } else {
            let d = ConfigDirective::MaxRoutesPerClient { n: arg_at(args, 0) };
            proof {
                model_via_tcp_queue_limit(&d);
                reveal(crate::directive::model_from_tcp_queue_limit);
                assert(d@.payload =~~= spec_payload(
                    shape_of(CommandId::MaxRoutesPerClient),
                    char_views(args@),
                ));
            }
            LineParseResult::Success(d)
        }
    } else if str_eq(command, "stale-routes-check") {
        if args.len() < 1 {
            LineParseResult::NotEnoughArguments
        } else {
            let d = ConfigDirective::StaleRoutesCheck {
                n: arg_at(args, 0),
                t: opt_arg(args, 1),
            };
            proof {
                model_via_tcp_queue_limit(&d);
                reveal(crate::directive::model_from_tcp_queue_limit);
                assert(d@.payload =~~= spec_payload(
                    shape_of(CommandId::StaleRoutesCheck),
                    char_views(args@),
                ));
            }
            LineParseResult::Success(d)
        }
    } else if str_eq(command, "connect-freq") {
        if args.len() < 2 {
            LineParseResult::NotEnoughArguments
        } else {
            let d = ConfigDirective::ConnectFreq { n: arg_at(args, 0), sec: arg_at(args, 1) };
            proof {
                model_via_tcp_queue_limit(&d);
                reveal(crate::directive::model_from_tcp_queue_limit);
                assert(d@.payload =~~= spec_payload(
                    shape_of(CommandId::ConnectFreq),
                    char_views(args@),
                ));
            }
            LineParseResult::Success(d)
        }
    } else if str_eq(command, "learn-address") {
        if args.len() < 1 {
            LineParseResult::NotEnoughArguments
        } else {
            let d = ConfigDirective::LearnAddress { cmd: arg_at(args, 0) };
            proof {
                model_via_tcp_queue_limit(&d);
                reveal(crate::directive::model_from_tcp_queue_limit);
                assert(d@.payload =~~= spec_payload(
                    shape_of(CommandId::LearnAddress),
                    char_views(args@),
                ));
            }
            LineParseResult::Success(d)
        }
    } else if str_eq(command, "auth-user-pass-verify") {
        if args.len() < 2 {
            LineParseResult::NotEnoughArguments
        } else {
            let d = ConfigDirective::AuthUserPassVerify {
                cmd: arg_at(args, 0),
                method: arg_at(args, 1),
            };
            proof {
                model_via_tcp_queue_limit(&d);
                reveal(crate::directive::model_from_tcp_queue_limit);
                assert(d@.payload =~~= spec_payload(
                    shape_of(CommandId::AuthUserPassVerify),
                    char_views(args@),
                ));
            }
            LineParseResult::Success(d)
        }
    } else if str_eq(command, "auth-gen-token") {
        let d = ConfigDirective::AuthGenToken { lifetime: opt_arg(args, 0) };
        proof {
            model_via_tcp_queue_limit(&d);
            reveal(crate::directive::model_from_tcp_queue_limit);
            assert(d@.payload =~~= spec_payload(
                shape_of(CommandId::AuthGenToken),
                char_views(args@),
            ));
        }
        LineParseResult::Success(d)
    } else if str_eq(command, "opt-verify") {
        let d = ConfigDirective::OptVerify;
        proof {
            model_via_tcp_queue_limit(&d);
            reveal(crate::directive::model_from_tcp_queue_limit);
            assert(d@.payload =~~= spec_payload(
                shape_of(CommandId::OptVerify),
                char_views(args@),
            ));
        }
        LineParseResult::Success(d)
    } else if str_eq(command, "auth-user-pass-optional") {
        let d = ConfigDirective::AuthUserPassOptional;
        proof {
            model_via_tcp_queue_limit(&d);
            reveal(crate::directive::model_from_tcp_queue_limit);
            assert(d@.payload =~~= spec_payload(
                shape_of(CommandId::AuthUserPassOptional),
                char_views(args@),
            ));
        }
        LineParseResult::Success(d)
    } else if str_eq(command, "client-cert-not-required") {
        let d = ConfigDirective::ClientCertNotRequired;
        proof {
            model_via_tcp_queue_limit(&d);
            reveal(crate::directive::model_from_tcp_queue_limit);
            assert(d@.payload =~~= spec_payload(
                shape_of(CommandId::ClientCertNotRequired),
                char_views(args@),
            ));
        }
        LineParseResult::Success(d)
    } else {
        parse_from_verify_client_cert(command, args)
    }
}

/// Dispatch among the commands `verify-client-cert` through `server-poll-timeout`.
#[verifier::rlimit(100)]
fn parse_from_verify_client_cert(command: &str, args: &Vec<String>) -> (r: LineParseResult)
    ensures
        r@ == spec_line_outcome(command_id_from_verify_client_cert(command@), char_views(args@)),
{
    proof {
        reveal(crate::registry::command_id_from_verify_client_cert);
    }
    if str_eq(command, "verify-client-cert") {
        if args.len() < 1 {
            LineParseResult::NotEnoughArguments
        } else {
            let d = ConfigDirective::VerifyClientCert {
                none_optional_require: arg_at(args, 0),
            };
            proof {
                model_via_verify_client_cert(&d);
                reveal(crate::directive::model_from_verify_client_cert);
                assert(d@.payload =~~= spec_payload(
                    shape_of(CommandId::VerifyClientCert),
                    char_views(args@),
                ));
            }
            LineParseResult::Success(d)
        }
    } else if str_eq(command, "username-as-common-name") {
        let d = ConfigDirective::UsernameAsCommonName;
        proof {
            model_via_verify_client_cert(&d);
            reveal(crate::directive::model_from_verify_client_cert);
            assert(d@.payload =~~= spec_payload(
                shape_of(CommandId::UsernameAsCommonName),
                char_views(args@),
            ));
        }
        LineParseResult::Success(d)
    } else if str_eq(command, "compat-names") {
        let d = ConfigDirective::CompatNames { no_remapping: opt_arg(args, 0) };
        proof {
            model_via_verify_client_cert(&d);
            reveal(crate::directive::model_from_verify_client_cert);
            assert(d@.payload =~~= spec_payload(
                shape_of(CommandId::CompatNames),
                char_views(args@),
            ));
        }
        LineParseResult::Success(d)
    } else if str_eq(command, "no-name-remapping") {
        let d = ConfigDirective::NoNameRemapping;
        proof {
            model_via_verify_client_cert(&d);
            reveal(crate::directive::model_from_verify_client_cert);
            assert(d@.payload =~~= spec_payload(
                shape_of(CommandId::NoNameRemapping),
                char_views(args@),
            ));
        }
        LineParseResult::Success(d)
    } else if str_eq(command, "port-share") {
        if args.len() < 2 {
            LineParseResult::NotEnoughArguments
        } else {
            let d = ConfigDirective::PortShare {
                host: arg_at(args, 0),
                port: arg_at(args, 1),
                dir: opt_arg(args, 2),
            };
            proof {
                model_via_verify_client_cert(&d);
                reveal(crate::directive::model_from_verify_client_cert);
                assert(d@.payload =~~= spec_payload(
                    shape_of(CommandId::PortShare),
                    char_views(args@),
                ));
            }
            LineParseResult::Success(d)
        }
    } else if str_eq(command, "client") {
        let d = ConfigDirective::Client;
        proof {
            model_via_verify_client_cert(&d);
            reveal(crate::directive::model_from_verify_client_cert);
            assert(d@.payload =~~= spec_payload(
                shape_of(CommandId::Client),
                char_views(args@),
            ));
        }
        LineParseResult::Success(d)
    } else if str_eq(command, "pull") {
        let d = ConfigDirective::Pull;
        proof {
            model_via_verify_client_cert(&d);
            reveal(crate::directive::model_from_verify_client_cert);
            assert(d@.payload =~~= spec_payload(
                shape_of(CommandId::Pull),
                char_views(args@),
            ));
        }
        LineParseResult::Success(d)
    } else if str_eq(command, "pull-filter") {
        if args.len() < 2 {
            LineParseResult::NotEnoughArguments
        } else {
            let d = ConfigDirective::PullFilter {
                accept_or_ignore_or_reject: arg_at(args, 0),
                text: arg_at(args, 1),
            };
            proof {
                model_via_verify_client_cert(&d);
                reveal(crate::directive::model_from_verify_client_cert);
                assert(d@.payload =~~= spec_payload(
                    shape_of(CommandId::PullFilter),
                    char_views(args@),
                ));
            }
            LineParseResult::Success(d)
        }
    } else if str_eq(command, "auth-user-pass") {
        let d = ConfigDirective::AuthUserPass { up: opt_arg(args, 0) };
        proof {
            model_via_verify_client_cert(&d);
            reveal(crate::directive::model_from_verify_client_cert);
            assert(d@.payload =~~= spec_payload(
                shape_of(CommandId::AuthUserPass),
                char_views(args@),
            ));
        }
        LineParseResult::Success(d)
    } else if str_eq(command, "auth-retry") {
        if args.len() < 1 {
            LineParseResult::NotEnoughArguments
        } else {
            let d = ConfigDirective::AuthRetry { auth_retry_type: arg_at(args, 0) };
            proof {
                model_via_verify_client_cert(&d);
                reveal(crate::directive::model_from_verify_client_cert);
                assert(d@.payload =~~= spec_payload(
                    shape_of(CommandId::AuthRetry),
                    char_views(args@),
                ));
            }
            LineParseResult::Success(d)
        }
    } else if str_eq(command, "static-challenge") {
        if args.len() < 2 {
            LineParseResult::NotEnoughArguments
        } else {
            let d = ConfigDirective::StaticChallenge { t: arg_at(args, 0), e: arg_at(args, 1) };
            proof {
                model_via_verify_client_cert(&d);
                reveal(crate::directive::model_from_verify_client_cert);
                assert(d@.payload =~~= spec_payload(
                    shape_of(CommandId::StaticChallenge),
                    char_views(args@),
                ));
            }
            LineParseResult::Success(d)
        }
    } else if str_eq(command, "server-poll-timeout") {
        if args.len() < 1 {
            LineParseResult::NotEnoughArguments
        } else {
            let d = ConfigDirective::ServerPollTimeout { n: arg_at(args, 0) };
            proof {
                model_via_verify_client_cert(&d);
                reveal(crate::directive::model_from_verify_client_cert);
                assert(d@.payload =~~= spec_payload(
                    shape_of(CommandId::ServerPollTimeout),
                    char_views(args@),
                ));
            }
            LineParseResult::Success(d)
        }
    } else {
        parse_from_connect_timeout(command, args)
    }
}

/// Dispatch among the commands `connect-timeout` through `engine`.
#[verifier::rlimit(100)]
fn parse_from_connect_timeout(command: &str, args: &Vec<String>) -> (r: LineParseResult)
    ensures
        r@ == spec_line_outcome(command_id_from_connect_timeout(command@), char_views(args@)),
{
    proof {
        reveal(crate::registry::command_id_from_connect_timeout);
    }
    if str_eq(command, "connect-timeout") {
        if args.len() < 1 {
            LineParseResult::NotEnoughArguments
        } else {
            let d = ConfigDirective::ConnectTimeout { n: arg_at(args, 0) };
            proof {
                model_via_connect_timeout(&d);
                reveal(crate::directive::model_from_connect_timeout);
                assert(d@.payload =~~= spec_payload(
                    shape_of(CommandId::ConnectTimeout),
                    char_views(args@),
                ));
            }
            LineParseResult::Success(d)
        }
    } else if str_eq(command, "explicit-exit-notify") {
        let d = ConfigDirective::ExplicitExitNotify { n: opt_arg(args, 0) };
        proof {
            model_via_connect_timeout(&d);
            reveal(crate::directive::model_from_connect_timeout);
            assert(d@.payload =~~= spec_payload(
                shape_of(CommandId::ExplicitExitNotify),
                char_views(args@),
            ));
        }
        LineParseResult::Success(d)
    } else if str_eq(command, "allow-recursive-routing") {
        let d = ConfigDirective::AllowRecursiveRouting;
        proof {
            model_via_connect_timeout(&d);
            reveal(crate::directive::model_from_connect_timeout);
            assert(d@.payload =~~= spec_payload(
                shape_of(CommandId::AllowRecursiveRouting),
                char_views(args@),
            ));
        }
        LineParseResult::Success(d)
    } else if str_eq(command, "secret") {
        if args.len() == 0 {
            LineParseResult::NotEnoughArguments
        } else {
            let d = ConfigDirective::Secret {
                file: File::FilePath(arg_at(args, 0)),
                direction: opt_arg(args, 1),
            };
            proof {
                model_via_connect_timeout(&d);
                reveal(crate::directive::model_from_connect_timeout);
                assert(d@.payload =~~= spec_payload(
                    shape_of(CommandId::Secret),
                    char_views(args@),
                ));
            }
            LineParseResult::Success(d)
        }
    } else if str_eq(command, "key-direction") {
        if args.len() < 1 {
            LineParseResult::NotEnoughArguments
        } else {
            let d = ConfigDirective::KeyDirection { direction: arg_at(args, 0) };
            proof {
                model_via_connect_timeout(&d);
                reveal(crate::directive::model_from_connect_timeout);
                assert(d@.payload =~~= spec_payload(
                    shape_of(CommandId::KeyDirection),
                    char_views(args@),
                ));
            }
            LineParseResult::Success(d)
        }
    } else if str_eq(command, "auth") {
        if args.len() < 1 {
            LineParseResult::NotEnoughArguments
        } else {
            let d = ConfigDirective::Auth { alg: arg_at(args, 0) };
            proof {
                model_via_connect_timeout(&d);
                reveal(crate::directive::model_from_connect_timeout);
                assert(d@.payload =~~= spec_payload(
                    shape_of(CommandId::Auth),
                    char_views(args@),
                ));
            }
            LineParseResult::Success(d)
        }
    } else if str_eq(command, "cipher") {
        if args.len() < 1 {
            LineParseResult::NotEnoughArguments
        } else {
            let d = ConfigDirective::Cipher { alg: arg_at(args, 0) };
            proof {
                model_via_connect_timeout(&d);
                reveal(crate::directive::model_from_connect_timeout);
                assert(d@.payload =~~= spec_payload(
                    shape_of(CommandId::Cipher),
                    char_views(args@),
                ));
            }
            LineParseResult::Success(d)
        }
    } else if str_eq(command, "ncp-ciphers") {
        if args.len() < 1 {
            LineParseResult::NotEnoughArguments
        } else {
            let d = ConfigDirective::NcpCiphers { cipher_list: arg_at(args, 0) };
            proof {
                model_via_connect_timeout(&d);
                reveal(crate::directive::model_from_connect_timeout);
                assert(d@.payload =~~= spec_payload(
                    shape_of(CommandId::NcpCiphers),
                    char_views(args@),
                ));
            }
            LineParseResult::Success(d)
        }
    } else if str_eq(command, "ncp-disable") {
        let d = ConfigDirective::NcpDisable;
        proof {
            model_via_connect_timeout(&d);
            reveal(crate::directive::model_from_connect_timeout);
            assert(d@.payload =~~= spec_payload(
                shape_of(CommandId::NcpDisable),
                char_views(args@),
            ));
        }
        LineParseResult::Success(d)
    } else if str_eq(command, "keysize") {
        if args.len() < 1 {
            LineParseResult::NotEnoughArguments
        } else {
            let d = ConfigDirective::Keysize { n: arg_at(args, 0) };
            proof {
                model_via_connect_timeout(&d);
                reveal(crate::directive::model_from_connect_timeout);
                assert(d@.payload =~~= spec_payload(
                    shape_of(CommandId::Keysize),
                    char_views(args@),
                ));
            }
            LineParseResult::Success(d)
        }
    } else if str_eq(command, "prng") {
        if args.len() < 1 {
            LineParseResult::NotEnoughArguments
        } else {
            let d = ConfigDirective::Prng { alg: arg_at(args, 0), nsl: opt_arg(args, 1) };
            proof {
                model_via_connect_timeout(&d);
                reveal(crate::directive::model_from_connect_timeout);
                assert(d@.payload =~~= spec_payload(
                    shape_of(CommandId::Prng),
                    char_views(args@),
                ));
            }
            LineParseResult::Success(d)
        }
    } else if str_eq(command, "engine") {
        let d = ConfigDirective::Engine { engine_name: opt_arg(args, 0) };
        proof {
            model_via_connect_timeout(&d);
            reveal(crate::directive::model_from_connect_timeout);
            assert(d@.payload =~~= spec_payload(
                shape_of(CommandId::Engine),
                char_views(args@),
            ));
        }
        LineParseResult::Success(d)
    } else {
        parse_from_no_replay(command, args)
    }
}

/// Dispatch among the commands `no-replay` through `capath`.
#[verifier::rlimit(100)]
fn parse_from_no_replay(command: &str, args: &Vec<String>) -> (r: LineParseResult)
    ensures
        r@ == spec_line_outcome(command_id_from_no_replay(command@), char_views(args@)),
{
    proof {
        reveal(crate::registry::command_id_from_no_replay);
    }
    if str_eq(command, "no-replay") {
        let d = ConfigDirective::NoReplay;
        proof {
            model_via_no_replay(&d);
            reveal(crate::directive::model_from_no_replay);
            assert(d@.payload =~~= spec_payload(
                shape_of(CommandId::NoReplay),
                char_views(args@),
            ));
        }
        LineParseResult::Success(d)
    } else if str_eq(command, "replay-window") {
        if args.len() < 1 {
            LineParseResult::NotEnoughArguments
        } else {
            let d = ConfigDirective::ReplayWindow { n: arg_at(args, 0), t: opt_arg(args, 1) };
            proof {
                model_via_no_replay(&d);
                reveal(crate::directive::model_from_no_replay);
                assert(d@.payload =~~= spec_payload(
                    shape_of(CommandId::ReplayWindow),
                    char_views(args@),
                ));
            }
            LineParseResult::Success(d)
        }
    } else if str_eq(command, "mute-replay-warnings") {
        let d = ConfigDirective::MuteReplayWarnings;
        proof {
            model_via_no_replay(&d);
            reveal(crate::directive::model_from_no_replay);
            assert(d@.payload =~~= spec_payload(
                shape_of(CommandId::MuteReplayWarnings),
                char_views(args@),
            ));
        }
        LineParseResult::Success(d)
    } else if str_eq(command, "replay-persist") {
        if args.len() < 1 {
            LineParseResult::NotEnoughArguments
        } else {
            let d = ConfigDirective::ReplayPersist { file: arg_at(args, 0) };
            proof {
                model_via_no_replay(&d);
                reveal(crate::directive::model_from_no_replay);
                assert(d@.payload =~~= spec_payload(
                    shape_of(CommandId::ReplayPersist),
                    char_views(args@),
                ));
            }
            LineParseResult::Success(d)
        }
    } else if str_eq(command, "no-iv") {
        let d = ConfigDirective::NoIv;
        proof {
            model_via_no_replay(&d);
            reveal(crate::directive::model_from_no_replay);
            assert(d@.payload =~~= spec_payload(
                shape_of(CommandId::NoIv),
                char_views(args@),
            ));
        }
        LineParseResult::Success(d)
    } else if str_eq(command, "use-prediction-resistance") {
        let d = ConfigDirective::UsePredictionResistance;
        proof {
            model_via_no_replay(&d);
            reveal(crate::directive::model_from_no_replay);
            assert(d@.payload =~~= spec_payload(
                shape_of(CommandId::UsePredictionResistance),
                char_views(args@),
            ));
        }
        LineParseResult::Success(d)
    } else if str_eq(command, "test-crypto") {
        let d = ConfigDirective::TestCrypto;
        proof {
            model_via_no_replay(&d);
            reveal(crate::directive::model_from_no_replay);
            assert(d@.payload =~~= spec_payload(
                shape_of(CommandId::TestCrypto),
                char_views(args@),
            ));
        }
        LineParseResult::Success(d)
    } else if str_eq(command, "tls-auth") {
        if args.len() == 0 {
            LineParseResult::NotEnoughArguments
        } else {
            let d = ConfigDirective::TlsAuth {
                file: File::FilePath(arg_at(args, 0)),
                direction: opt_arg(args, 1),
            };
            proof {
                model_via_no_replay(&d);
                reveal(crate::directive::model_from_no_replay);
                assert(d@.payload =~~= spec_payload(
                    shape_of(CommandId::TlsAuth),
                    char_views(args@),
                ));
            }
            LineParseResult::Success(d)
        }
    } else if str_eq(command, "tls-server") {
        let d = ConfigDirective::TlsServer;
        proof {
            model_via_no_replay(&d);
            reveal(crate::directive::model_from_no_replay);
            assert(d@.payload =~~= spec_payload(
                shape_of(CommandId::TlsServer),
                char_views(args@),
            ));
        }
        LineParseResult::Success(d)
    } else if str_eq(command, "tls-client") {
        let d = ConfigDirective::TlsClient;
        proof {
            model_via_no_replay(&d);
            reveal(crate::directive::model_from_no_replay);
            assert(d@.payload =~~= spec_payload(
                shape_of(CommandId::TlsClient),
                char_views(args@),
            ));
        }
        LineParseResult::Success(d)
    } else if str_eq(command, "ca") {
        if args.len() == 0 {
            LineParseResult::NotEnoughArguments
        } else {
            let d = ConfigDirective::Ca { file: File::FilePath(arg_at(args, 0)) };
            proof {
                model_via_no_replay(&d);
                reveal(crate::directive::model_from_no_replay);
                assert(d@.payload =~~= spec_payload(
                    shape_of(CommandId::Ca),
                    char_views(args@),
                ));
            }
            LineParseResult::Success(d)
        }
    } else if str_eq(command, "capath") {
        if args.len() < 1 {
            LineParseResult::NotEnoughArguments
        } else {
            let d = ConfigDirective::Capath { dir: arg_at(args, 0) };
            proof {
                model_via_no_replay(&d);
                reveal(crate::directive::model_from_no_replay);
                assert(d@.payload =~~= spec_payload(
                    shape_of(CommandId::Capath),
                    char_views(args@),
                ));
            }
            LineParseResult::Success(d)
        }
    } else {
        parse_from_dh(command, args)
    }
}

/// Dispatch among the commands `dh` through `pkcs11-id-management`.
#[verifier::rlimit(100)]
fn parse_from_dh(command: &str, args: &Vec<String>) -> (r: LineParseResult)
    ensures
        r@ == spec_line_outcome(command_id_from_dh(command@), char_views(args@)),
{
    proof {
        reveal(crate::registry::command_id_from_dh);
    }
    if str_eq(command, "dh") {
        if args.len() == 0 {
            LineParseResult::NotEnoughArguments
        } else {
            let d = ConfigDirective::Dh { file: File::FilePath(arg_at(args, 0)) };
            proof {
                model_via_dh(&d);
                reveal(crate::directive::model_from_dh);
                assert(d@.payload =~~= spec_payload(
                    shape_of(CommandId::Dh),
                    char_views(args@),
                ));
            }
            LineParseResult::Success(d)
        }
    } else if str_eq(command, "ecdh-curve") {
        if args.len() < 1 {
            LineParseResult::NotEnoughArguments
        } else {
            let d = ConfigDirective::EcdhCurve { name: arg_at(args, 0) };
            proof {
                model_via_dh(&d);
                reveal(crate::directive::model_from_dh);
                assert(d@.payload =~~= spec_payload(
                    shape_of(CommandId::EcdhCurve),
                    char_views(args@),
                ));
            }
            LineParseResult::Success(d)
        }
    } else if str_eq(command, "cert") {
        if args.len() == 0 {
            LineParseResult::NotEnoughArguments
        } else {
            let d = ConfigDirective::Cert { file: File::FilePath(arg_at(args, 0)) };
            proof {
                model_via_dh(&d);
                reveal(crate::directive::model_from_dh);
                assert(d@.payload =~~= spec_payload(
                    shape_of(CommandId::Cert),
                    char_views(args@),
                ));
            }
            LineParseResult::Success(d)
        }
    } else if str_eq(command, "extra-certs") {
        if args.len() == 0 {
            LineParseResult::NotEnoughArguments
        } else {
            let d = ConfigDirective::ExtraCerts { file: File::FilePath(arg_at(args, 0)) };
            proof {
                model_via_dh(&d);
                reveal(crate::directive::model_from_dh);
                assert(d@.payload =~~= spec_payload(
                    shape_of(CommandId::ExtraCerts),
                    char_views(args@),
                ));
            }
            LineParseResult::Success(d)
        }
    } else if str_eq(command, "key") {
        if args.len() == 0 {
            LineParseResult::NotEnoughArguments
        } else {
            let d = ConfigDirective::Key { file: File::FilePath(arg_at(args, 0)) };
            proof {
                model_via_dh(&d);
                reveal(crate::directive::model_from_dh);
                assert(d@.payload =~~= spec_payload(
                    shape_of(CommandId::Key),
                    char_views(args@),
                ));
            }
            LineParseResult::Success(d)
        }
    } else if str_eq(command, "tls-version-min") {
        if args.len() < 1 {
            LineParseResult::NotEnoughArguments
        } else {
            let d = ConfigDirective::TlsVersionMin {
                version: arg_at(args, 0),
                or_highest: opt_arg(args, 1),
            };
            proof {
                model_via_dh(&d);
                reveal(crate::directive::model_from_dh);
                assert(d@.payload =~~= spec_payload(
                    shape_of(CommandId::TlsVersionMin),
                    char_views(args@),
                ));
            }
            LineParseResult::Success(d)
        }
    } else if str_eq(command, "tls-version-max") {
        if args.len() < 1 {
            LineParseResult::NotEnoughArguments
        } else {
            let d = ConfigDirective::TlsVersionMax { version: arg_at(args, 0) };
            proof {
                model_via_dh(&d);
                reveal(crate::directive::model_from_dh);
                assert(d@.payload =~~= spec_payload(
                    shape_of(CommandId::TlsVersionMax),
                    char_views(args@),
                ));
            }
            LineParseResult::Success(d)
        }
    } else if str_eq(command, "pkcs12") {
        if args.len() == 0 {
            LineParseResult::NotEnoughArguments
        } else {
            let d = ConfigDirective::Pkcs12 { file: File::FilePath(arg_at(args, 0)) };
            proof {
                model_via_dh(&d);
                reveal(crate::directive::model_from_dh);
                assert(d@.payload =~~= spec_payload(
                    shape_of(CommandId::Pkcs12),
                    char_views(args@),
                ));
            }
            LineParseResult::Success(d)
        }
    } else if str_eq(command, "verify-hash") {
        if args.len() < 1 {
            LineParseResult::NotEnoughArguments
        } else {
            let d = ConfigDirective::VerifyHash { hash: arg_at(args, 0) };
            proof {
                model_via_dh(&d);
                reveal(crate::directive::model_from_dh);
                assert(d@.payload =~~= spec_payload(
                    shape_of(CommandId::VerifyHash),
                    char_views(args@),
                ));
            }
            LineParseResult::Success(d)
        }
    } else if str_eq(command, "pkcs11-cert-private") {
        if args.len() == 0 {
            LineParseResult::NotEnoughArguments
        } else {
            let d = ConfigDirective::Pkcs11CertPrivate { providers: all_args(args) };
            proof {
                model_via_dh(&d);
                reveal(crate::directive::model_from_dh);
                assert(d@.payload =~~= spec_payload(
                    shape_of(CommandId::Pkcs11CertPrivate),
                    char_views(args@),
                ));
            }
            LineParseResult::Success(d)
        }
    } else if str_eq(command, "pkcs11-id") {
        if args.len() < 1 {
            LineParseResult::NotEnoughArguments
        } else {
            let d = ConfigDirective::Pkcs11Id { name: arg_at(args, 0) };
            proof {
                model_via_dh(&d);
                reveal(crate::directive::model_from_dh);
                assert(d@.payload =~~= spec_payload(
                    shape_of(CommandId::Pkcs11Id),
                    char_views(args@),
                ));
            }
            LineParseResult::Success(d)
        }
    } else if str_eq(command, "pkcs11-id-management") {
        let d = ConfigDirective::Pkcs11IdManagement;
        proof {
            model_via_dh(&d);
            reveal(crate::directive::model_from_dh);
            assert(d@.payload =~~= spec_payload(
                shape_of(CommandId::Pkcs11IdManagement),
                char_views(args@),
            ));
        }
        LineParseResult::Success(d)
    } else {
        parse_from_pkcs11_pin_cache(command, args)
    }
}

/// Dispatch among the commands `pkcs11-pin-cache` through `hand-window`.
#[verifier::rlimit(100)]
fn parse_from_pkcs11_pin_cache(command: &str, args: &Vec<String>) -> (r: LineParseResult)
    ensures
        r@ == spec_line_outcome(command_id_from_pkcs11_pin_cache(command@), char_views(args@)),
{
    proof {
        reveal(crate::registry::command_id_from_pkcs11_pin_cache);
    }
    if str_eq(command, "pkcs11-pin-cache") {
        if args.len() < 1 {
            LineParseResult::NotEnoughArguments
        } else {
            let d = ConfigDirective::Pkcs11PinCache { seconds: arg_at(args, 0) };
            proof {
                model_via_pkcs11_pin_cache(&d);
                reveal(crate::directive::model_from_pkcs11_pin_cache);
                assert(d@.payload =~~= spec_payload(
                    shape_of(CommandId::Pkcs11PinCache),
                    char_views(args@),
                ));
            }
            LineParseResult::Success(d)
        }
    } else if str_eq(command, "pkcs11-protected-authentication") {
        if args.len() == 0 {
            LineParseResult::NotEnoughArguments
        } else {
            let d = ConfigDirective::Pkcs11ProtectedAuthentication { providers: all_args(args) };
            proof {
                model_via_pkcs11_pin_cache(&d);
                reveal(crate::directive::model_from_pkcs11_pin_cache);
                assert(d@.payload =~~= spec_payload(
                    shape_of(CommandId::Pkcs11ProtectedAuthentication),
                    char_views(args@),
                ));
            }
            LineParseResult::Success(d)
        }
    } else if str_eq(command, "pkcs11-providers") {
        if args.len() == 0 {
            LineParseResult::NotEnoughArguments
        } else {
            let d = ConfigDirective::Pkcs11Providers { providers: all_args(args) };
            proof {
                model_via_pkcs11_pin_cache(&d);
                reveal(crate::directive::model_from_pkcs11_pin_cache);
                assert(d@.payload =~~= spec_payload(
                    shape_of(CommandId::Pkcs11Providers),
                    char_views(args@),
                ));
            }
            LineParseResult::Success(d)
        }
    } else if str_eq(command, "pkcs11-private-mode") {
        if args.len() == 0 {
            LineParseResult::NotEnoughArguments
        } else {
            let d = ConfigDirective::Pkcs11PrivateMode { modes: all_args(args) };
            proof {
                model_via_pkcs11_pin_cache(&d);
                reveal(crate::directive::model_from_pkcs11_pin_cache);
                assert(d@.payload =~~= spec_payload(
                    shape_of(CommandId::Pkcs11PrivateMode),
                    char_views(args@),
                ));
            }
            LineParseResult::Success(d)
        }
    } else if str_eq(command, "cryptoapicert") {
        if args.len() < 1 {
            LineParseResult::NotEnoughArguments
        } else {
            let d = ConfigDirective::Cryptoapicert { select_string: arg_at(args, 0) };
            proof {
                model_via_pkcs11_pin_cache(&d);
                reveal(crate::directive::model_from_pkcs11_pin_cache);
                assert(d@.payload =~~= spec_payload(
                    shape_of(CommandId::Cryptoapicert),
                    char_views(args@),
                ));
            }
            LineParseResult::Success(d)
        }
    } else if str_eq(command, "key-method") {
        if args.len() < 1 {
            LineParseResult::NotEnoughArguments
        } else {
            let d = ConfigDirective::KeyMethod { m: arg_at(args, 0) };
            proof {
                model_via_pkcs11_pin_cache(&d);
                reveal(crate::directive::model_from_pkcs11_pin_cache);
                assert(d@.payload =~~= spec_payload(
                    shape_of(CommandId::KeyMethod),
                    char_views(args@),
                ));
            }
            LineParseResult::Success(d)
        }
    } else if str_eq(command, "tls-cipher") {
        if args.len() < 1 {
            LineParseResult::NotEnoughArguments
        } else {
            let d = ConfigDirective::TlsCipher { l: arg_at(args, 0) };
            proof {
                model_via_pkcs11_pin_cache(&d);
                reveal(crate::directive::model_from_pkcs11_pin_cache);
                assert(d@.payload =~~= spec_payload(
                    shape_of(CommandId::TlsCipher),
                    char_views(args@),
                ));
            }
            LineParseResult::Success(d)
        }
    } else if str_eq(command, "tls-timeout") {
        if args.len() < 1 {
            LineParseResult::NotEnoughArguments
        } else {
            let d = ConfigDirective::TlsTimeout { n: arg_at(args, 0) };
            proof {
                model_via_pkcs11_pin_cache(&d);
                reveal(crate::directive::model_from_pkcs11_pin_cache);
                assert(d@.payload =~~= spec_payload(
                    shape_of(CommandId::TlsTimeout),
                    char_views(args@),
                ));
            }
            LineParseResult::Success(d)
        }
    } else if str_eq(command, "reneg-bytes") {
        if args.len() < 1 {
            LineParseResult::NotEnoughArguments
        } else {
            let d = ConfigDirective::RenegBytes { n: arg_at(args, 0) };
            proof {
                model_via_pkcs11_pin_cache(&d);
                reveal(crate::directive::model_from_pkcs11_pin_cache);
                assert(d@.payload =~~= spec_payload(
                    shape_of(CommandId::RenegBytes),
                    char_views(args@),
                ));
            }
            LineParseResult::Success(d)
        }
    } else if str_eq(command, "reneg-pkts") {
        if args.len() < 1 {
            LineParseResult::NotEnoughArguments
        } else {
            let d = ConfigDirective::RenegPkts { n: arg_at(args, 0) };
            proof {
                model_via_pkcs11_pin_cache(&d);
                reveal(crate::directive::model_from_pkcs11_pin_cache);
                assert(d@.payload =~~= spec_payload(
                    shape_of(CommandId::RenegPkts),
                    char_views(args@),
                ));
            }
            LineParseResult::Success(d)
        }
    } else if str_eq(command, "reneg-sec") {
        if args.len() < 1 {
            LineParseResult::NotEnoughArguments
        } else {
            let d = ConfigDirective::RenegSec { n: arg_at(args, 0) };
            proof {
                model_via_pkcs11_pin_cache(&d);
                reveal(crate::directive::model_from_pkcs11_pin_cache);
                assert(d@.payload =~~= spec_payload(
                    shape_of(CommandId::RenegSec),
                    char_views(args@),
                ));
            }
            LineParseResult::Success(d)
        }
    } else if str_eq(command, "hand-window") {
        if args.len() < 1 {
            LineParseResult::NotEnoughArguments
        } else {
            let d = ConfigDirective::HandWindow { n: arg_at(args, 0) };
            proof {
                model_via_pkcs11_pin_cache(&d);
                reveal(crate::directive::model_from_pkcs11_pin_cache);
                assert(d@.payload =~~= spec_payload(
                    shape_of(CommandId::HandWindow),
                    char_views(args@),
                ));
            }
            LineParseResult::Success(d)
        }
    } else {
        parse_from_tran_window(command, args)
    }
}

/// Dispatch among the commands `tran-window` through `x509-track`.
#[verifier::rlimit(100)]
fn parse_from_tran_window(command: &str, args: &Vec<String>) -> (r: LineParseResult)
    ensures
        r@ == spec_line_outcome(command_id_from_tran_window(command@), char_views(args@)),
{
    proof {
        reveal(crate::registry::command_id_from_tran_window);
    }
    if str_eq(command, "tran-window") {
        if args.len() < 1 {
            LineParseResult::NotEnoughArguments
        } else {
            let d = ConfigDirective::TranWindow { n: arg_at(args, 0) };
            proof {
                model_via_tran_window(&d);
                reveal(crate::directive::model_from_tran_window);
                assert(d@.payload =~~= spec_payload(
                    shape_of(CommandId::TranWindow),
                    char_views(args@),
                ));
            }
            LineParseResult::Success(d)
        }
    } else if str_eq(command, "single-session") {
        let d = ConfigDirective::SingleSession;
        proof {
            model_via_tran_window(&d);
            reveal(crate::directive::model_from_tran_window);
            assert(d@.payload =~~= spec_payload(
                shape_of(CommandId::SingleSession),
                char_views(args@),
            ));
        }
        LineParseResult::Success(d)
    } else if str_eq(command, "tls-exit") {
        let d = ConfigDirective::TlsExit;
        proof {
            model_via_tran_window(&d);
            reveal(crate::directive::model_from_tran_window);
            assert(d@.payload =~~= spec_payload(
                shape_of(CommandId::TlsExit),
                char_views(args@),
            ));
        }
        LineParseResult::Success(d)
    } else if str_eq(command, "tls-crypt") {
        if args.len() == 0 {
            LineParseResult::NotEnoughArguments
        } else {
            let d = ConfigDirective::TlsCrypt { file: File::FilePath(arg_at(args, 0)) };
            proof {
                model_via_tran_window(&d);
                reveal(crate::directive::model_from_tran_window);
                assert(d@.payload =~~= spec_payload(
                    shape_of(CommandId::TlsCrypt),
                    char_views(args@),
                ));
            }
            LineParseResult::Success(d)
        }
    } else if str_eq(command, "askpass") {
        let d = ConfigDirective::Askpass { file: opt_arg(args, 0) };
        proof {
            model_via_tran_window(&d);
            reveal(crate::directive::model_from_tran_window);
            assert(d@.payload =~~= spec_payload(
                shape_of(CommandId::Askpass),
                char_views(args@),
            ));
        }
        LineParseResult::Success(d)
    } else if str_eq(command, "auth-nocache") {
        let d = ConfigDirective::AuthNocache;
        proof {
            model_via_tran_window(&d);
            reveal(crate::directive::model_from_tran_window);
            assert(d@.payload =~~= spec_payload(
                shape_of(CommandId::AuthNocache),
                char_views(args@),
            ));
        }
        LineParseResult::Success(d)
    } else if str_eq(command, "auth-token") {
        if args.len() < 1 {
            LineParseResult::NotEnoughArguments
        } else {
            let d = ConfigDirective::AuthToken { token: arg_at(args, 0) };
            proof {
                model_via_tran_window(&d);
                reveal(crate::directive::model_from_tran_window);
                assert(d@.payload =~~= spec_payload(
                    shape_of(CommandId::AuthToken),
                    char_views(args@),
                ));
            }
            LineParseResult::Success(d)
        }
    } else if str_eq(command, "tls-verify") {
        if args.len() < 1 {
            LineParseResult::NotEnoughArguments
        } else {
            let d = ConfigDirective::TlsVerify { cmd: arg_at(args, 0) };
            proof {
                model_via_tran_window(&d);
                reveal(crate::directive::model_from_tran_window);
                assert(d@.payload =~~= spec_payload(
                    shape_of(CommandId::TlsVerify),
                    char_views(args@),
                ));
            }
            LineParseResult::Success(d)
        }
    } else if str_eq(command, "tls-export-cert") {
        if args.len() < 1 {
            LineParseResult::NotEnoughArguments
        } else {
            let d = ConfigDirective::TlsExportCert { directory: arg_at(args, 0) };
            proof {
                model_via_tran_window(&d);
                reveal(crate::directive::model_from_tran_window);
                assert(d@.payload =~~= spec_payload(
                    shape_of(CommandId::TlsExportCert),
                    char_views(args@),
                ));
            }
            LineParseResult::Success(d)
        }
    } else if str_eq(command, "x509-username-field") {
        if args.len() < 1 {
            LineParseResult::NotEnoughArguments
        } else {
            let d = ConfigDirective::X509UsernameField { fieldname: arg_at(args, 0) };
            proof {
                model_via_tran_window(&d);
                reveal(crate::directive::model_from_tran_window);
                assert(d@.payload =~~= spec_payload(
                    shape_of(CommandId::X509UsernameField),
                    char_views(args@),
                ));
            }
            LineParseResult::Success(d)
        }
    } else if str_eq(command, "verify-x509-name") {
        if args.len() < 2 {
            LineParseResult::NotEnoughArguments
        } else {
            let d = ConfigDirective::VerifyX509Name {
                name: arg_at(args, 0),
                verify_x509_name_type: arg_at(args, 1),
            };
            proof {
                model_via_tran_window(&d);
                reveal(crate::directive::model_from_tran_window);
                assert(d@.payload =~~= spec_payload(
                    shape_of(CommandId::VerifyX509Name),
                    char_views(args@),
                ));
            }
            LineParseResult::Success(d)
        }
    } else if str_eq(command, "x509-track") {
        if args.len() < 1 {
            LineParseResult::NotEnoughArguments
        } else {
            let d = ConfigDirective::X509Track { attribute: arg_at(args, 0) };
            proof {
                model_via_tran_window(&d);
                reveal(crate::directive::model_from_tran_window);
                assert(d@.payload =~~= spec_payload(
                    shape_of(CommandId::X509Track),
                    char_views(args@),
                ));
            }
            LineParseResult::Success(d)
        }
    } else {
        parse_from_ns_cert_type(command, args)
    }
}

/// Dispatch among the commands `ns-cert-type` through `mktun`.
#[verifier::rlimit(100)]
fn parse_from_ns_cert_type(command: &str, args: &Vec<String>) -> (r: LineParseResult)
    ensures
        r@ == spec_line_outcome(command_id_from_ns_cert_type(command@), char_views(args@)),
{
    proof {
        reveal(crate::registry::command_id_from_ns_cert_type);
    }
    if str_eq(command, "ns-cert-type") {
        if args.len() < 1 {
            LineParseResult::NotEnoughArguments
        } else {
            let d = ConfigDirective::NsCertType { client_or_server: arg_at(args, 0) };
            proof {
                model_via_ns_cert_type(&d);
                reveal(crate::directive::model_from_ns_cert_type);
                assert(d@.payload =~~= spec_payload(
                    shape_of(CommandId::NsCertType),
                    char_views(args@),
                ));
            }
            LineParseResult::Success(d)
        }
    } else if str_eq(command, "remote-cert-ku") {
        if args.len() == 0 {
            LineParseResult::NotEnoughArguments
        } else {
            let d = ConfigDirective::RemoteCertKu { values: all_args(args) };
            proof {
                model_via_ns_cert_type(&d);
                reveal(crate::directive::model_from_ns_cert_type);
                assert(d@.payload =~~= spec_payload(
                    shape_of(CommandId::RemoteCertKu),
                    char_views(args@),
                ));
            }
            LineParseResult::Success(d)
        }
    } else if str_eq(command, "remote-cert-eku") {
        if args.len() < 1 {
            LineParseResult::NotEnoughArguments
        } else {
            let d = ConfigDirective::RemoteCertEku { oid: arg_at(args, 0) };
            proof {
                model_via_ns_cert_type(&d);
                reveal(crate::directive::model_from_ns_cert_type);
                assert(d@.payload =~~= spec_payload(
                    shape_of(CommandId::RemoteCertEku),
                    char_views(args@),
                ));
            }
            LineParseResult::Success(d)
        }
    } else if str_eq(command, "remote-cert-tls") {
        if args.len() < 1 {
            LineParseResult::NotEnoughArguments
        } else {
            let d = ConfigDirective::RemoteCertTls { client_or_server: arg_at(args, 0) };
            proof {
                model_via_ns_cert_type(&d);
                reveal(crate::directive::model_from_ns_cert_type);
                assert(d@.payload =~~= spec_payload(
                    shape_of(CommandId::RemoteCertTls),
                    char_views(args@),
                ));
            }
            LineParseResult::Success(d)
        }
    } else if str_eq(command, "crl-verify") {
        if args.len() == 0 {
            LineParseResult::NotEnoughArguments
        } else {
            let d = ConfigDirective::CrlVerify {
                file: File::FilePath(arg_at(args, 0)),
                direction: opt_arg(args, 1),
            };
            proof {
                model_via_ns_cert_type(&d);
                reveal(crate::directive::model_from_ns_cert_type);
                assert(d@.payload =~~= spec_payload(
                    shape_of(CommandId::CrlVerify),
                    char_views(args@),
                ));
            }
            LineParseResult::Success(d)
        }
    } else if str_eq(command, "show-ciphers") {
        let d = ConfigDirective::ShowCiphers;
        proof {
            model_via_ns_cert_type(&d);
            reveal(crate::directive::model_from_ns_cert_type);
            assert(d@.payload =~~= spec_payload(
                shape_of(CommandId::ShowCiphers),
                char_views(args@),
            ));
        }
        LineParseResult::Success(d)
    } else if str_eq(command, "show-digests") {
        let d = ConfigDirective::ShowDigests;
        proof {
            model_via_ns_cert_type(&d);
            reveal(crate::directive::model_from_ns_cert_type);
            assert(d@.payload =~~= spec_payload(
                shape_of(CommandId::ShowDigests),
                char_views(args@),
            ));
        }
        LineParseResult::Success(d)
    } else if str_eq(command, "show-tls") {
        let d = ConfigDirective::ShowTls;
        proof {
            model_via_ns_cert_type(&d);
            reveal(crate::directive::model_from_ns_cert_type);
            assert(d@.payload =~~= spec_payload(
                shape_of(CommandId::ShowTls),
                char_views(args@),
            ));
        }
        LineParseResult::Success(d)
    } else if str_eq(command, "show-engines") {
        let d = ConfigDirective::ShowEngines;
        proof {
            model_via_ns_cert_type(&d);
            reveal(crate::directive::model_from_ns_cert_type);
            assert(d@.payload =~~= spec_payload(
                shape_of(CommandId::ShowEngines),
                char_views(args@),
            ));
        }
        LineParseResult::Success(d)
    } else if str_eq(command, "show-curves") {
        let d = ConfigDirective::ShowCurves;
        proof {
            model_via_ns_cert_type(&d);
            reveal(crate::directive::model_from_ns_cert_type);
            assert(d@.payload =~~= spec_payload(
                shape_of(CommandId::ShowCurves),
                char_views(args@),
            ));
        }
        LineParseResult::Success(d)
    } else if str_eq(command, "genkey") {
        let d = ConfigDirective::Genkey;
        proof {
            model_via_ns_cert_type(&d);
            reveal(crate::directive::model_from_ns_cert_type);
            assert(d@.payload =~~= spec_payload(
                shape_of(CommandId::Genkey),
                char_views(args@),
            ));
        }
        LineParseResult::Success(d)
    } else if str_eq(command, "mktun") {
        let d = ConfigDirective::Mktun;
        proof {
            model_via_ns_cert_type(&d);
            reveal(crate::directive::model_from_ns_cert_type);
            assert(d@.payload =~~= spec_payload(
                shape_of(CommandId::Mktun),
                char_views(args@),
            ));
        }
        LineParseResult::Success(d)
    } else {
        parse_from_rmtun(command, args)
    }
}

/// Dispatch among the commands `rmtun` through `pause-exit`.
#[verifier::rlimit(100)]
fn parse_from_rmtun(command: &str, args: &Vec<String>) -> (r: LineParseResult)
    ensures
        r@ == spec_line_outcome(command_id_from_rmtun(command@), char_views(args@)),
{
    proof {
        reveal(crate::registry::command_id_from_rmtun);
    }
    if str_eq(command, "rmtun") {
        let d = ConfigDirective::Rmtun;
        proof {
            model_via_rmtun(&d);
            reveal(crate::directive::model_from_rmtun);
            assert(d@.payload =~~= spec_payload(
                shape_of(CommandId::Rmtun),
                char_views(args@),
            ));
        }
        LineParseResult::Success(d)
    } else if str_eq(command, "win-sys") {
        if args.len() < 1 {
            LineParseResult::NotEnoughArguments
        } else {
            let d = ConfigDirective::WinSys { path: arg_at(args, 0) };
            proof {
                model_via_rmtun(&d);
                reveal(crate::directive::model_from_rmtun);
                assert(d@.payload =~~= spec_payload(
                    shape_of(CommandId::WinSys),
                    char_views(args@),
                ));
            }
            LineParseResult::Success(d)
        }
    } else if str_eq(command, "ip-win32") {
        if args.len() < 1 {
            LineParseResult::NotEnoughArguments
        } else {
            let d = ConfigDirective::IpWin32 { method: arg_at(args, 0) };
            proof {
                model_via_rmtun(&d);
                reveal(crate::directive::model_from_rmtun);
                assert(d@.payload =~~= spec_payload(
                    shape_of(CommandId::IpWin32),
                    char_views(args@),
                ));
            }
            LineParseResult::Success(d)
        }
    } else if str_eq(command, "route-method") {
        if args.len() < 1 {
            LineParseResult::NotEnoughArguments
        } else {
            let d = ConfigDirective::RouteMethod { m: arg_at(args, 0) };
            proof {
                model_via_rmtun(&d);
                reveal(crate::directive::model_from_rmtun);
                assert(d@.payload =~~= spec_payload(
                    shape_of(CommandId::RouteMethod),
                    char_views(args@),
                ));
            }
            LineParseResult::Success(d)
        }
    } else if str_eq(command, "dhcp-option") {
        if args.len() < 1 {
            LineParseResult::NotEnoughArguments
        } else {
            let d = ConfigDirective::DhcpOption {
                dhcp_option_type: arg_at(args, 0),
                parm: opt_arg(args, 1),
            };
            proof {
                model_via_rmtun(&d);
                reveal(crate::directive::model_from_rmtun);
                assert(d@.payload =~~= spec_payload(
                    shape_of(CommandId::DhcpOption),
                    char_views(args@),
                ));
            }
            LineParseResult::Success(d)
        }
    } else if str_eq(command, "tap-sleep") {
        if args.len() < 1 {
            LineParseResult::NotEnoughArguments
        } else {
            let d = ConfigDirective::TapSleep { n: arg_at(args, 0) };
            proof {
                model_via_rmtun(&d);
                reveal(crate::directive::model_from_rmtun);
                assert(d@.payload =~~= spec_payload(
                    shape_of(CommandId::TapSleep),
                    char_views(args@),
                ));
            }
            LineParseResult::Success(d)
        }
    } else if str_eq(command, "show-net-up") {
        let d = ConfigDirective::ShowNetUp;
        proof {
            model_via_rmtun(&d);
            reveal(crate::directive::model_from_rmtun);
            assert(d@.payload =~~= spec_payload(
                shape_of(CommandId::ShowNetUp),
                char_views(args@),
            ));
        }
        LineParseResult::Success(d)
    } else if str_eq(command, "block-outside-dns") {
        let d = ConfigDirective::BlockOutsideDns;
        proof {
            model_via_rmtun(&d);
            reveal(crate::directive::model_from_rmtun);
            assert(d@.payload =~~= spec_payload(
                shape_of(CommandId::BlockOutsideDns),
                char_views(args@),
            ));
        }
        LineParseResult::Success(d)
    } else if str_eq(command, "dhcp-renew") {
        let d = ConfigDirective::DhcpRenew;
        proof {
            model_via_rmtun(&d);
            reveal(crate::directive::model_from_rmtun);
            assert(d@.payload =~~= spec_payload(
                shape_of(CommandId::DhcpRenew),
                char_views(args@),
            ));
        }
        LineParseResult::Success(d)
    } else if str_eq(command, "dhcp-release") {
        let d = ConfigDirective::DhcpRelease;
        proof {
            model_via_rmtun(&d);
            reveal(crate::directive::model_from_rmtun);
            assert(d@.payload =~~= spec_payload(
                shape_of(CommandId::DhcpRelease),
                char_views(args@),
            ));
        }
        LineParseResult::Success(d)
    } else if str_eq(command, "register-dns") {
        let d = ConfigDirective::RegisterDns;
        proof {
            model_via_rmtun(&d);
            reveal(crate::directive::model_from_rmtun);
            assert(d@.payload =~~= spec_payload(
                shape_of(CommandId::RegisterDns),
                char_views(args@),
            ));
        }
        LineParseResult::Success(d)
    } else if str_eq(command, "pause-exit") {
        let d = ConfigDirective::PauseExit;
        proof {
            model_via_rmtun(&d);
            reveal(crate::directive::model_from_rmtun);
            assert(d@.payload =~~= spec_payload(
                shape_of(CommandId::PauseExit),
                char_views(args@),
            ));
        }
        LineParseResult::Success(d)
    } else {
        parse_from_service(command, args)
    }
}

/// Dispatch among the commands `service` through `ifconfig-ipv6-push`.
#[verifier::rlimit(100)]
fn parse_from_service(command: &str, args: &Vec<String>) -> (r: LineParseResult)
    ensures
        r@ == spec_line_outcome(command_id_from_service(command@), char_views(args@)),
{
    proof {
        reveal(crate::registry::command_id_from_service);
    }
    if str_eq(command, "service") {
        if args.len() < 1 {
            LineParseResult::NotEnoughArguments
        } else {
            let d = ConfigDirective::Service {
                exit_event: arg_at(args, 0),
                initial_state_of_event: opt_arg(args, 1),
            };
            proof {
                model_via_service(&d);
                reveal(crate::directive::model_from_service);
                assert(d@.payload =~~= spec_payload(
                    shape_of(CommandId::Service),
                    char_views(args@),
                ));
            }
            LineParseResult::Success(d)
        }
    } else if str_eq(command, "show-adapters") {
        let d = ConfigDirective::ShowAdapters;
        proof {
            model_via_service(&d);
            reveal(crate::directive::model_from_service);
            assert(d@.payload =~~= spec_payload(
                shape_of(CommandId::ShowAdapters),
                char_views(args@),
            ));
        }
        LineParseResult::Success(d)
    } else if str_eq(command, "allow-nonadmin") {
        let d = ConfigDirective::AllowNonadmin { tap_adapter: opt_arg(args, 0) };
        proof {
            model_via_service(&d);
            reveal(crate::directive::model_from_service);
            assert(d@.payload =~~= spec_payload(
                shape_of(CommandId::AllowNonadmin),
                char_views(args@),
            ));
        }
        LineParseResult::Success(d)
    } else if str_eq(command, "show-valid-subnets") {
        let d = ConfigDirective::ShowValidSubnets;
        proof {
            model_via_service(&d);
            reveal(crate::directive::model_from_service);
            assert(d@.payload =~~= spec_payload(
                shape_of(CommandId::ShowValidSubnets),
                char_views(args@),
            ));
        }
        LineParseResult::Success(d)
    } else if str_eq(command, "show-net") {
        let d = ConfigDirective::ShowNet;
        proof {
            model_via_service(&d);
            reveal(crate::directive::model_from_service);
            assert(d@.payload =~~= spec_payload(
                shape_of(CommandId::ShowNet),
                char_views(args@),
            ));
        }
        LineParseResult::Success(d)
    } else if str_eq(command, "show-pkcs11-ids") {
        let d = ConfigDirective::ShowPkcs11Ids {
            provider: opt_arg(args, 0),
            cert_private: opt_arg(args, 1),
        };
        proof {
            model_via_service(&d);
            reveal(crate::directive::model_from_service);
            assert(d@.payload =~~= spec_payload(
                shape_of(CommandId::ShowPkcs11Ids),
                char_views(args@),
            ));
        }
        LineParseResult::Success(d)
    } else if str_eq(command, "show-gateway") {
        let d = ConfigDirective::ShowGateway { v6target: opt_arg(args, 0) };
        proof {
            model_via_service(&d);
            reveal(crate::directive::model_from_service);
            assert(d@.payload =~~= spec_payload(
                shape_of(CommandId::ShowGateway),
                char_views(args@),
            ));
        }
        LineParseResult::Success(d)
    } else if str_eq(command, "ifconfig-ipv6") {
        if args.len() < 2 {
            LineParseResult::NotEnoughArguments
        } else {
            let d = ConfigDirective::IfconfigIpv6 {
                ipv6addr: arg_at(args, 0),
                ipv6remote: arg_at(args, 1),
            };
            proof {
                model_via_service(&d);
                reveal(crate::directive::model_from_service);
                assert(d@.payload =~~= spec_payload(
                    shape_of(CommandId::IfconfigIpv6),
                    char_views(args@),
                ));
            }
            LineParseResult::Success(d)
        }
    } else if str_eq(command, "route-ipv6") {
        if args.len() < 1 {
            LineParseResult::NotEnoughArguments
        } else {
            let d = ConfigDirective::RouteIpv6 {
                ipv6addr: arg_at(args, 0),
                gateway: opt_arg(args, 1),
                metric: opt_arg(args, 2),
            };
            proof {
                model_via_service(&d);
                reveal(crate::directive::model_from_service);
                assert(d@.payload =~~= spec_payload(
                    shape_of(CommandId::RouteIpv6),
                    char_views(args@),
                ));
            }
            LineParseResult::Success(d)
        }
    } else if str_eq(command, "server-ipv6") {
        if args.len() < 1 {
            LineParseResult::NotEnoughArguments
        } else {
            let d = ConfigDirective::ServerIpv6 { ipv6addr: arg_at(args, 0) };
            proof {
                model_via_service(&d);
                reveal(crate::directive::model_from_service);
                assert(d@.payload =~~= spec_payload(
                    shape_of(CommandId::ServerIpv6),
                    char_views(args@),
                ));
            }
            LineParseResult::Success(d)
        }
    } else if str_eq(command, "ifconfig-ipv6-pool") {
        if args.len() < 1 {
            LineParseResult::NotEnoughArguments
        } else {
            let d = ConfigDirective::IfconfigIpv6Pool { ipv6addr: arg_at(args, 0) };
            proof {
                model_via_service(&d);
                reveal(crate::directive::model_from_service);
                assert(d@.payload =~~= spec_payload(
                    shape_of(CommandId::IfconfigIpv6Pool),
                    char_views(args@),
                ));
            }
            LineParseResult::Success(d)
        }
    } else if str_eq(command, "ifconfig-ipv6-push") {
        if args.len() < 2 {
            LineParseResult::NotEnoughArguments
        } else {
            let d = ConfigDirective::IfconfigIpv6Push {
                ipv6addr: arg_at(args, 0),
                ipv6remote: arg_at(args, 1),
            };
            proof {
                model_via_service(&d);
                reveal(crate::directive::model_from_service);
                assert(d@.payload =~~= spec_payload(
                    shape_of(CommandId::IfconfigIpv6Push),
                    char_views(args@),
                ));
            }
            LineParseResult::Success(d)
        }
    } else {
        parse_from_iroute_ipv6(command, args)
    }
}

/// Dispatch among the commands `iroute-ipv6` through `server-bridge`.
#[verifier::rlimit(100)]
fn parse_from_iroute_ipv6(command: &str, args: &Vec<String>) -> (r: LineParseResult)
    ensures
        r@ == spec_line_outcome(command_id_from_iroute_ipv6(command@), char_views(args@)),
{
    proof {
        reveal(crate::registry::command_id_from_iroute_ipv6);
    }
    if str_eq(command, "iroute-ipv6") {
        if args.len() < 1 {
            LineParseResult::NotEnoughArguments
        } else {
            let d = ConfigDirective::IrouteIpv6 { ipv6addr: arg_at(args, 0) };
            proof {
                model_via_iroute_ipv6(&d);
                reveal(crate::directive::model_from_iroute_ipv6);
                assert(d@.payload =~~= spec_payload(
                    shape_of(CommandId::IrouteIpv6),
                    char_views(args@),
                ));
            }
            LineParseResult::Success(d)
        }
    } else if str_eq(command, "server-bridge") {
        if args.len() == 1 && str_eq(args[0].as_str(), "nogw") {
            let d = ConfigDirective::ServerBridge(ServerBridgeArg::NoGateway);
            proof {
                model_via_iroute_ipv6(&d);
                reveal(crate::directive::model_from_iroute_ipv6);
                assert(d@.payload =~~= spec_payload(
                    shape_of(CommandId::ServerBridge),
                    char_views(args@),
                ));
            }
            LineParseResult::Success(d)
        } else if args.len() == 4 {
            let d = ConfigDirective::ServerBridge(
                ServerBridgeArg::GatewayConfig {
                    gateway: arg_at(args, 0),
                    netmask: arg_at(args, 1),
                    pool_start_ip: arg_at(args, 2),
                    pool_end_ip: arg_at(args, 3),
                },
            );
        proof {
            model_via_iroute_ipv6(&d);
            reveal(crate::directive::model_from_iroute_ipv6);
            assert(d@.payload =~~= spec_payload(
                shape_of(CommandId::ServerBridge),
                char_views(args@),
            ));
        }
            LineParseResult::Success(d)
        } else {
            LineParseResult::NotEnoughArguments
        }
    } else {
        LineParseResult::NoMatchingCommand
    }
}

/// Dispatches one command line: looks `command` up in the registry and
/// consumes `args` according to the command's shape. Matching is exact; a
/// name not in the registry answers `NoMatchingCommand`, and a known command
/// with too few tokens answers `NotEnoughArguments`.
pub fn parse_line(command: &str, args: &Vec<String>) -> (r: LineParseResult)
    ensures
        r@ == spec_parse_line(command@, char_views(args@)),
{
    parse_from_help(command, args)
}

} // verus!
