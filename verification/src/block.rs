//! The inline-block accumulator: the state held while the lines between a
//! `<identifier>` start marker and its `</identifier>` end marker are being
//! collected, and the directive that the finished block produces.

use vstd::prelude::*;

use crate::directive::ConfigDirective;
use crate::directive::File;
use crate::directive::model_from_connect_timeout;
use crate::directive::model_from_dh;
use crate::directive::model_from_http_proxy;
use crate::directive::model_from_no_replay;
use crate::directive::model_from_ns_cert_type;
use crate::directive::model_from_tran_window;
use crate::directive::model_via_connect_timeout;
use crate::directive::model_via_dh;
use crate::directive::model_via_http_proxy;
use crate::directive::model_via_no_replay;
use crate::directive::model_via_ns_cert_type;
use crate::directive::model_via_tran_window;
use crate::markers::end_marker;
use crate::markers::end_marker_ident;
use crate::markers::is_inline_ident;
use crate::model::DirectiveModel;
use crate::model::FileModel;
use crate::model::Payload;
use crate::parser::ConfigLine;
use crate::registry::CommandId;
use crate::text::char_views;
use crate::text::join_lines;
use crate::text::join_lines_exec;
use crate::text::str_eq;

verus! {

/// The model of an open inline block: the 1-based line number of its start
/// marker, its identifier, and the content lines collected so far.
#[verifier::ext_equal]
pub struct BlockModel {
    pub start_line_no: int,
    pub identifier: Seq<char>,
    pub body: Seq<Seq<char>>,
}

/// The directive a finished inline block produces: the variant named by the
/// block's identifier, carrying the joined content lines as inline file
/// contents. The commands whose plain form takes a direction argument carry
/// none here, since the inline form supplies no direction.
pub open spec fn inline_directive_model(ident: Seq<char>, contents: Seq<char>) -> DirectiveModel {
    let file = FileModel::Inline(contents);
    let no_opt = Payload::WithFile { file, optional: Seq::empty() };
    let one_opt = Payload::WithFile { file, optional: seq![Option::None] };
    if ident == "ca"@ {
        DirectiveModel { id: CommandId::Ca, payload: no_opt }
    } else if ident == "cert"@ {
        DirectiveModel { id: CommandId::Cert, payload: no_opt }
    } else if ident == "extra-certs"@ {
        DirectiveModel { id: CommandId::ExtraCerts, payload: no_opt }
    } else if ident == "dh"@ {
        DirectiveModel { id: CommandId::Dh, payload: no_opt }
    } else if ident == "key"@ {
        DirectiveModel { id: CommandId::Key, payload: no_opt }
    } else if ident == "pkcs12"@ {
        DirectiveModel { id: CommandId::Pkcs12, payload: no_opt }
    } else if ident == "crl-verify"@ {
        DirectiveModel { id: CommandId::CrlVerify, payload: one_opt }
    } else if ident == "http-proxy-user-pass"@ {
        DirectiveModel { id: CommandId::HttpProxyUserPass, payload: no_opt }
    } else if ident == "tls-auth"@ {
        DirectiveModel { id: CommandId::TlsAuth, payload: one_opt }
    } else if ident == "tls-crypt"@ {
        DirectiveModel { id: CommandId::TlsCrypt, payload: no_opt }
    } else if ident == "secret"@ {
        DirectiveModel { id: CommandId::Secret, payload: one_opt }
    } else {
        arbitrary()
    }
}

/// The accumulator for one inline block.
pub struct InlineFileParseState {
    start_line_no: i32,
    identifier: String,
    lines: Vec<String>,
}

impl View for InlineFileParseState {
    type V = BlockModel;

    closed spec fn view(&self) -> BlockModel {
        BlockModel {
            start_line_no: self.start_line_no as int,
            identifier: self.identifier@,
            body: char_views(self.lines@),
        }
    }
}

impl InlineFileParseState {
    /// Opens a block for `identifier` whose start marker stands on the
    /// 1-based line `line_no`.
    pub fn new(line_no: usize, identifier: String) -> (r: InlineFileParseState)
        requires
            line_no <= 0x7fff_ffff,
        ensures
            r@ == (BlockModel {
                start_line_no: line_no as int,
                identifier: identifier@,
                body: Seq::empty(),
            }),
    {
        let r = InlineFileParseState {
            start_line_no: line_no as i32,
            identifier,
            lines: Vec::new(),
        };
        proof {
            assert(r@.body =~= Seq::<Seq<char>>::empty());
        }
        r
    }

    /// Whether `line` closes this block: it must carry the end marker of the
    /// block's own identifier.
    pub fn is_completed_by_line(&self, line: &str) -> (r: bool)
        ensures
            r == (end_marker_ident(line@) == Some(self@.identifier)),
    {
        match end_marker(line) {
            Some(id) => str_eq(id.as_str(), self.identifier.as_str()),
            None => false,
        }
    }

    /// Appends one verbatim content line.
    pub fn add_line(&mut self, line: String)
        ensures
            final(self)@ == (BlockModel {
                start_line_no: old(self)@.start_line_no,
                identifier: old(self)@.identifier,
                body: old(self)@.body.push(line@),
            }),
    {
        let ghost prev = char_views(self.lines@);
        self.lines.push(line);
        proof {
            assert(char_views(self.lines@) =~= prev.push(line@));
        }
    }

    /// The finished block's directive, tagged with the line number of the
    /// block's start marker.
    pub fn to_config_line(&self) -> (r: ConfigLine<ConfigDirective>)
        requires
            is_inline_ident(self@.identifier),
        ensures
            r.number as int == self@.start_line_no,
            r.result@ == inline_directive_model(self@.identifier, join_lines(self@.body)),
    {
        let file = File::InlineFileContents(join_lines_exec(&self.lines));
        let ghost target = inline_directive_model(self@.identifier, join_lines(self@.body));
        let directive = if str_eq(self.identifier.as_str(), "ca") {
            let d = ConfigDirective::Ca { file };
            proof {
                model_via_no_replay(&d);
                reveal(model_from_no_replay);
                assert(d@ =~~= target);
            }
            d
        } else if str_eq(self.identifier.as_str(), "cert") {
            let d = ConfigDirective::Cert { file };
            proof {
                model_via_dh(&d);
                reveal(model_from_dh);
                assert(d@ =~~= target);
            }
            d
        } else if str_eq(self.identifier.as_str(), "extra-certs") {
            let d = ConfigDirective::ExtraCerts { file };
            proof {
                model_via_dh(&d);
                reveal(model_from_dh);
                assert(d@ =~~= target);
            }
            d
        } else if str_eq(self.identifier.as_str(), "dh") {
            let d = ConfigDirective::Dh { file };
            proof {
                model_via_dh(&d);
                reveal(model_from_dh);
                assert(d@ =~~= target);
            }
            d
        } else if str_eq(self.identifier.as_str(), "key") {
            let d = ConfigDirective::Key { file };
            proof {
                model_via_dh(&d);
                reveal(model_from_dh);
                assert(d@ =~~= target);
            }
            d
        } else if str_eq(self.identifier.as_str(), "pkcs12") {
            let d = ConfigDirective::Pkcs12 { file };
            proof {
                model_via_dh(&d);
                reveal(model_from_dh);
                assert(d@ =~~= target);
            }
            d
        } else if str_eq(self.identifier.as_str(), "crl-verify") {
            let d = ConfigDirective::CrlVerify { file, direction: None };
            proof {
                model_via_ns_cert_type(&d);
                reveal(model_from_ns_cert_type);
                assert(d@ =~~= target);
            }
            d
        } else if str_eq(self.identifier.as_str(), "http-proxy-user-pass") {
            let d = ConfigDirective::HttpProxyUserPass { file };
            proof {
                model_via_http_proxy(&d);
                reveal(model_from_http_proxy);
                assert(d@ =~~= target);
            }
            d
        } else if str_eq(self.identifier.as_str(), "tls-auth") {
            let d = ConfigDirective::TlsAuth { file, direction: None };
            proof {
                model_via_no_replay(&d);
                reveal(model_from_no_replay);
                assert(d@ =~~= target);
            }
            d
        } else if str_eq(self.identifier.as_str(), "tls-crypt") {
            let d = ConfigDirective::TlsCrypt { file };
            proof {
                model_via_tran_window(&d);
                reveal(model_from_tran_window);
                assert(d@ =~~= target);
            }
            d
        } else if str_eq(self.identifier.as_str(), "secret") {
            let d = ConfigDirective::Secret { file, direction: None };
            proof {
                model_via_connect_timeout(&d);
                reveal(model_from_connect_timeout);
                assert(d@ =~~= target);
            }
            d
        } else {
            proof {
                assert(false);
            }
            unreached()
        };
        ConfigLine { number: self.start_line_no, result: directive }
    }
}

} // verus!
