//! The parsed representation of one configuration line.

use vstd::prelude::*;

use crate::model::BridgeModel;
use crate::model::DirectiveModel;
use crate::model::FileModel;
use crate::model::ParseOutcome;
use crate::model::Payload;
use crate::registry::CommandId;

verus! {

/// The file argument of an inline-capable command: either a path supplied as
/// a plain argument token, or the contents carried inline between block
/// markers (joined with `\n`, without the marker lines).
#[derive(PartialEq, Eq, Debug)]
pub enum File {
    FilePath(String),
    InlineFileContents(String),
}

impl View for File {
    type V = FileModel;

    open spec fn view(&self) -> FileModel {
        match self {
            File::FilePath(p) => FileModel::Path(p@),
            File::InlineFileContents(c) => FileModel::Inline(c@),
        }
    }
}

impl Clone for File {
    fn clone(&self) -> (r: Self)
        ensures
            r == *self,
    {
        match self {
            File::FilePath(p) => File::FilePath(p.clone()),
            File::InlineFileContents(c) => File::InlineFileContents(c.clone()),
        }
    }
}

/// The argument of the irregular `server-bridge` command: either the literal
/// `nogw`, or exactly four gateway-configuration tokens.
#[derive(PartialEq, Eq, Debug)]
pub enum ServerBridgeArg {
    NoGateway,
    GatewayConfig { gateway: String, netmask: String, pool_start_ip: String, pool_end_ip: String },
}

impl View for ServerBridgeArg {
    type V = BridgeModel;

    open spec fn view(&self) -> BridgeModel {
        match self {
            ServerBridgeArg::NoGateway => BridgeModel::NoGateway,
            ServerBridgeArg::GatewayConfig { gateway, netmask, pool_start_ip, pool_end_ip } => {
                BridgeModel::Gateway {
                    gateway: gateway@,
                    netmask: netmask@,
                    pool_start_ip: pool_start_ip@,
                    pool_end_ip: pool_end_ip@,
                }
            },
        }
    }
}

impl Clone for ServerBridgeArg {
    fn clone(&self) -> (r: Self)
        ensures
            r == *self,
    {
        match self {
            ServerBridgeArg::NoGateway => ServerBridgeArg::NoGateway,
            ServerBridgeArg::GatewayConfig { gateway, netmask, pool_start_ip, pool_end_ip } => {
                ServerBridgeArg::GatewayConfig {
                    gateway: gateway.clone(),
                    netmask: netmask.clone(),
                    pool_start_ip: pool_start_ip.clone(),
                    pool_end_ip: pool_end_ip.clone(),
                }
            },
        }
    }
}

/// One variant per known command. Required arguments are `String` fields,
/// optional arguments are `Option<String>` fields, variadic arguments are
/// `Vec<String>` fields, and inline-capable commands carry a [`File`].
#[derive(PartialEq, Eq, Debug)]
pub enum ConfigDirective {
    Help,
    Config { file: String },
    Mode { m: String },
    Local { host: String },
    Remote { host: String, port: Option<String>, proto: Option<String> },
    RemoteRandomHostname,
    ProtoForce { p: String },
    RemoteRandom,
    Proto { p: String },
    ConnectRetry { n: String, max: Option<String> },
    ConnectRetryMax { n: String },
    ShowProxySettings,
    HttpProxy {
        server: String,
        port: String,
        authfile_or_auto_or_auto_nct: Option<String>,
        auth_method: Option<String>,
    },
    HttpProxyOption { http_proxy_option_type: String, parm: Option<String> },
    HttpProxyUserPass { file: File },
    SocksProxy { server: String, port: Option<String>, authfile: Option<String> },
    ResolvRetry { n: String },
    Float,
    Ipchange { cmd: String },
    Port { port: String },
    Lport { port: String },
    Rport { port: String },
    Bind { ipv6only: Option<String> },
    Nobind,
    Dev { devarg: String },
    DevType { device_type: String },
    Topology { mode: String },
    DevNode { node: String },
    Lladdr { address: String },
    Iproute { cmd: String },
    Ifconfig { l: String, rn: String },
    IfconfigNoexec,
    IfconfigNowarn,
    Route {
        network_or_ip: String,
        netmask: Option<String>,
        gateway: Option<String>,
        metric: Option<String>,
    },
    RouteGateway { gw_or_dhcp: String },
    RouteMetric { m: String },
    RouteDelay { n: Option<String>, w: Option<String> },
    RouteUp { cmd: String },
    RoutePreDown { cmd: String },
    RouteNoexec,
    RouteNopull,
    AllowPullFqdn,
    ClientNat { snat_or_dnat: String, network: String, netmask: String, alias: String },
    RedirectGateway { flags: Vec<String> },
    LinkMtu { n: String },
    RedirectPrivate { flags: Option<Vec<String>> },
    TunMtu { n: String },
    TunMtuExtra { n: String },
    MtuDisc { mtu_disc_type: String },
    MtuTest,
    Fragment { max: String },
    Mssfix { max: String },
    Sndbuf { size: String },
    Rcvbuf { size: String },
    Mark { value: String },
    SocketFlags { flags: Vec<String> },
    Txqueuelen { n: String },
    Shaper { n: String },
    Inactive { n: String, bytes: Option<String> },
    Ping { n: String },
    PingExit { n: String },
    PingRestart { n: String },
    Keepalive { interval: String, timeout: String },
    PingTimerRem,
    PersistTun,
    PersistKey,
    PersistLocalIp,
    PersistRemoteIp,
    Mlock,
    Up { cmd: String },
    UpDelay,
    Down { cmd: String },
    DownPre,
    UpRestart,
    Setenv { name: String, value: String },
    SetenvSafe { name: String, value: String },
    IgnoreUnknownOption { opts: Vec<String> },
    ScriptSecurity { level: String },
    DisableOcc,
    User { user: String },
    Group { group: String },
    Cd { dir: String },
    Chroot { dir: String },
    Setcon { context: String },
    Daemon { progname: Option<String> },
    Syslog { progname: Option<String> },
    ErrorsToStderr,
    Passtos,
    Inetd { wait_or_nowait: Option<String>, progname: Option<String> },
    Log { file: String },
    LogAppend { file: String },
    SuppressTimestamps,
    MachineReadableOutput,
    Writepid { file: String },
    Nice { n: String },
    FastIo,
    Multihome,
    Echo { parms: Option<Vec<String>> },
    RemapUsr1 { signal: String },
    Verb { n: String },
    Status { file: String, n: Option<String> },
    StatusVersion { n: Option<String> },
    Mute { n: String },
    Compress { algorithm: Option<String> },
    CompLzo { mode: Option<String> },
    CompNoadapt,
    Management { ip: String, port: String, pw_file: Option<String> },
    ManagementClient,
    ManagementQueryPasswords,
    ManagementQueryProxy,
    ManagementQueryRemote,
    ManagementExternalKey,
    ManagementExternalCert { certificate_hint: String },
    ManagementForgetDisconnect,
    ManagementHold,
    ManagementSignal,
    ManagementLogCache { n: String },
    ManagementUpDown,
    ManagementClientAuth,
    ManagementClientPf,
    ManagementClientUser { u: String },
    ManagementClientGroup { g: String },
    Plugin { module_pathname: String, init_string: Option<String> },
    KeyingMaterialExporter { label: String, len: String },
    Server { network: String, netmask: String, nopool: Option<String> },
    Push { option: String },
    PushReset,
    PushRemove { opt: String },
    PushPeerInfo,
    Disable,
    IfconfigPool { start_ip: String, end_ip: String, netmask: Option<String> },
    IfconfigPoolPersist { file: String, seconds: Option<String> },
    IfconfigPoolLinear,
    IfconfigPush { local: String, remote_netmask: String, alias: Option<String> },
    Iroute { network: String, netmask: Option<String> },
    ClientToClient,
    DuplicateCn,
    ClientConnect { cmd: String },
    ClientDisconnect { cmd: String },
    ClientConfigDir { dir: String },
    CcdExclusive,
    TmpDir { dir: String },
    HashSize { r: String, v: String },
    BcastBuffers { n: String },
    TcpQueueLimit { n: String },
    TcpNodelay,
    MaxClients { n: String },
    MaxRoutesPerClient { n: String },
    StaleRoutesCheck { n: String, t: Option<String> },
    ConnectFreq { n: String, sec: String },
    LearnAddress { cmd: String },
    AuthUserPassVerify { cmd: String, method: String },
    AuthGenToken { lifetime: Option<String> },
    OptVerify,
    AuthUserPassOptional,
    ClientCertNotRequired,
    VerifyClientCert { none_optional_require: String },
    UsernameAsCommonName,
    CompatNames { no_remapping: Option<String> },
    NoNameRemapping,
    PortShare { host: String, port: String, dir: Option<String> },
    Client,
    Pull,
    PullFilter { accept_or_ignore_or_reject: String, text: String },
    AuthUserPass { up: Option<String> },
    AuthRetry { auth_retry_type: String },
    StaticChallenge { t: String, e: String },
    ServerPollTimeout { n: String },
    ConnectTimeout { n: String },
    ExplicitExitNotify { n: Option<String> },
    AllowRecursiveRouting,
    Secret { file: File, direction: Option<String> },
    KeyDirection { direction: String },
    Auth { alg: String },
    Cipher { alg: String },
    NcpCiphers { cipher_list: String },
    NcpDisable,
    Keysize { n: String },
    Prng { alg: String, nsl: Option<String> },
    Engine { engine_name: Option<String> },
    NoReplay,
    ReplayWindow { n: String, t: Option<String> },
    MuteReplayWarnings,
    ReplayPersist { file: String },
    NoIv,
    UsePredictionResistance,
    TestCrypto,
    TlsAuth { file: File, direction: Option<String> },
    TlsServer,
    TlsClient,
    Ca { file: File },
    Capath { dir: String },
    Dh { file: File },
    EcdhCurve { name: String },
    Cert { file: File },
    ExtraCerts { file: File },
    Key { file: File },
    TlsVersionMin { version: String, or_highest: Option<String> },
    TlsVersionMax { version: String },
    Pkcs12 { file: File },
    VerifyHash { hash: String },
    Pkcs11CertPrivate { providers: Vec<String> },
    Pkcs11Id { name: String },
    Pkcs11IdManagement,
    Pkcs11PinCache { seconds: String },
    Pkcs11ProtectedAuthentication { providers: Vec<String> },
    Pkcs11Providers { providers: Vec<String> },
    Pkcs11PrivateMode { modes: Vec<String> },
    Cryptoapicert { select_string: String },
    KeyMethod { m: String },
    TlsCipher { l: String },
    TlsTimeout { n: String },
    RenegBytes { n: String },
    RenegPkts { n: String },
    RenegSec { n: String },
    HandWindow { n: String },
    TranWindow { n: String },
    SingleSession,
    TlsExit,
    TlsCrypt { file: File },
    Askpass { file: Option<String> },
    AuthNocache,
    AuthToken { token: String },
    TlsVerify { cmd: String },
    TlsExportCert { directory: String },
    X509UsernameField { fieldname: String },
    VerifyX509Name { name: String, verify_x509_name_type: String },
    X509Track { attribute: String },
    NsCertType { client_or_server: String },
    RemoteCertKu { values: Vec<String> },
    RemoteCertEku { oid: String },
    RemoteCertTls { client_or_server: String },
    CrlVerify { file: File, direction: Option<String> },
    ShowCiphers,
    ShowDigests,
    ShowTls,
    ShowEngines,
    ShowCurves,
    Genkey,
    Mktun,
    Rmtun,
    WinSys { path: String },
    IpWin32 { method: String },
    RouteMethod { m: String },
    DhcpOption { dhcp_option_type: String, parm: Option<String> },
    TapSleep { n: String },
    ShowNetUp,
    BlockOutsideDns,
    DhcpRenew,
    DhcpRelease,
    RegisterDns,
    PauseExit,
    Service { exit_event: String, initial_state_of_event: Option<String> },
    ShowAdapters,
    AllowNonadmin { tap_adapter: Option<String> },
    ShowValidSubnets,
    ShowNet,
    ShowPkcs11Ids { provider: Option<String>, cert_private: Option<String> },
    ShowGateway { v6target: Option<String> },
    IfconfigIpv6 { ipv6addr: String, ipv6remote: String },
    RouteIpv6 { ipv6addr: String, gateway: Option<String>, metric: Option<String> },
    ServerIpv6 { ipv6addr: String },
    IfconfigIpv6Pool { ipv6addr: String },
    IfconfigIpv6Push { ipv6addr: String, ipv6remote: String },
    IrouteIpv6 { ipv6addr: String },
    ServerBridge(ServerBridgeArg),
}

/// The models of the directives for the commands `help` through `show-proxy-settings`.
#[verifier::opaque]
pub open spec fn model_from_help(d: ConfigDirective) -> DirectiveModel {
    match d {
        ConfigDirective::Help => DirectiveModel {
            id: CommandId::Help,
            payload: Payload::Fields { required: Seq::empty(), optional: Seq::empty() },
        },
        ConfigDirective::Config { file } => DirectiveModel {
            id: CommandId::Config,
            payload: Payload::Fields { required: seq![file@], optional: Seq::empty() },
        },
        ConfigDirective::Mode { m } => DirectiveModel {
            id: CommandId::Mode,
            payload: Payload::Fields { required: seq![m@], optional: Seq::empty() },
        },
        ConfigDirective::Local { host } => DirectiveModel {
            id: CommandId::Local,
            payload: Payload::Fields { required: seq![host@], optional: Seq::empty() },
        },
        ConfigDirective::Remote { host, port, proto } => DirectiveModel {
            id: CommandId::Remote,
            payload: Payload::Fields {
                required: seq![host@],
                optional: seq![port.deep_view(), proto.deep_view()],
            },
        },
        ConfigDirective::RemoteRandomHostname => DirectiveModel {
            id: CommandId::RemoteRandomHostname,
            payload: Payload::Fields { required: Seq::empty(), optional: Seq::empty() },
        },
        ConfigDirective::ProtoForce { p } => DirectiveModel {
            id: CommandId::ProtoForce,
            payload: Payload::Fields { required: seq![p@], optional: Seq::empty() },
        },
        ConfigDirective::RemoteRandom => DirectiveModel {
            id: CommandId::RemoteRandom,
            payload: Payload::Fields { required: Seq::empty(), optional: Seq::empty() },
        },
        ConfigDirective::Proto { p } => DirectiveModel {
            id: CommandId::Proto,
            payload: Payload::Fields { required: seq![p@], optional: Seq::empty() },
        },
        ConfigDirective::ConnectRetry { n, max } => DirectiveModel {
            id: CommandId::ConnectRetry,
            payload: Payload::Fields { required: seq![n@], optional: seq![max.deep_view()] },
        },
        ConfigDirective::ConnectRetryMax { n } => DirectiveModel {
            id: CommandId::ConnectRetryMax,
            payload: Payload::Fields { required: seq![n@], optional: Seq::empty() },
        },
        ConfigDirective::ShowProxySettings => DirectiveModel {
            id: CommandId::ShowProxySettings,
            payload: Payload::Fields { required: Seq::empty(), optional: Seq::empty() },
        },
        _ => model_from_http_proxy(d),
    }
}

/// The models of the directives for the commands `http-proxy` through `nobind`.
#[verifier::opaque]
pub open spec fn model_from_http_proxy(d: ConfigDirective) -> DirectiveModel {
    match d {
        ConfigDirective::HttpProxy { server, port, authfile_or_auto_or_auto_nct, auth_method } => DirectiveModel {
            id: CommandId::HttpProxy,
            payload: Payload::Fields {
                required: seq![server@, port@],
                optional: seq![authfile_or_auto_or_auto_nct.deep_view(), auth_method.deep_view()],
            },
        },
        ConfigDirective::HttpProxyOption { http_proxy_option_type, parm } => DirectiveModel {
            id: CommandId::HttpProxyOption,
            payload: Payload::Fields {
                required: seq![http_proxy_option_type@],
                optional: seq![parm.deep_view()],
            },
        },
        ConfigDirective::HttpProxyUserPass { file } => DirectiveModel {
            id: CommandId::HttpProxyUserPass,
            payload: Payload::WithFile { file: file@, optional: Seq::empty() },
        },
        ConfigDirective::SocksProxy { server, port, authfile } => DirectiveModel {
            id: CommandId::SocksProxy,
            payload: Payload::Fields {
                required: seq![server@],
                optional: seq![port.deep_view(), authfile.deep_view()],
            },
        },
        ConfigDirective::ResolvRetry { n } => DirectiveModel {
            id: CommandId::ResolvRetry,
            payload: Payload::Fields { required: seq![n@], optional: Seq::empty() },
        },
        ConfigDirective::Float => DirectiveModel {
            id: CommandId::Float,
            payload: Payload::Fields { required: Seq::empty(), optional: Seq::empty() },
        },
        ConfigDirective::Ipchange { cmd } => DirectiveModel {
            id: CommandId::Ipchange,
            payload: Payload::Fields { required: seq![cmd@], optional: Seq::empty() },
        },
        ConfigDirective::Port { port } => DirectiveModel {
            id: CommandId::Port,
            payload: Payload::Fields { required: seq![port@], optional: Seq::empty() },
        },
        ConfigDirective::Lport { port } => DirectiveModel {
            id: CommandId::Lport,
            payload: Payload::Fields { required: seq![port@], optional: Seq::empty() },
        },
        ConfigDirective::Rport { port } => DirectiveModel {
            id: CommandId::Rport,
            payload: Payload::Fields { required: seq![port@], optional: Seq::empty() },
        },
        ConfigDirective::Bind { ipv6only } => DirectiveModel {
            id: CommandId::Bind,
            payload: Payload::Fields {
                required: Seq::empty(),
                optional: seq![ipv6only.deep_view()],
            },
        },
        ConfigDirective::Nobind => DirectiveModel {
            id: CommandId::Nobind,
            payload: Payload::Fields { required: Seq::empty(), optional: Seq::empty() },
        },
        _ => model_from_dev(d),
    }
}

/// The models of the directives for the commands `dev` through `route-metric`.
#[verifier::opaque]
pub open spec fn model_from_dev(d: ConfigDirective) -> DirectiveModel {
    match d {
        ConfigDirective::Dev { devarg } => DirectiveModel {
            id: CommandId::Dev,
            payload: Payload::Fields { required: seq![devarg@], optional: Seq::empty() },
        },
        ConfigDirective::DevType { device_type } => DirectiveModel {
            id: CommandId::DevType,
            payload: Payload::Fields { required: seq![device_type@], optional: Seq::empty() },
        },
        ConfigDirective::Topology { mode } => DirectiveModel {
            id: CommandId::Topology,
            payload: Payload::Fields { required: seq![mode@], optional: Seq::empty() },
        },
        ConfigDirective::DevNode { node } => DirectiveModel {
            id: CommandId::DevNode,
            payload: Payload::Fields { required: seq![node@], optional: Seq::empty() },
        },
        ConfigDirective::Lladdr { address } => DirectiveModel {
            id: CommandId::Lladdr,
            payload: Payload::Fields { required: seq![address@], optional: Seq::empty() },
        },
        ConfigDirective::Iproute { cmd } => DirectiveModel {
            id: CommandId::Iproute,
            payload: Payload::Fields { required: seq![cmd@], optional: Seq::empty() },
        },
        ConfigDirective::Ifconfig { l, rn } => DirectiveModel {
            id: CommandId::Ifconfig,
            payload: Payload::Fields { required: seq![l@, rn@], optional: Seq::empty() },
        },
        ConfigDirective::IfconfigNoexec => DirectiveModel {
            id: CommandId::IfconfigNoexec,
            payload: Payload::Fields { required: Seq::empty(), optional: Seq::empty() },
        },
        ConfigDirective::IfconfigNowarn => DirectiveModel {
            id: CommandId::IfconfigNowarn,
            payload: Payload::Fields { required: Seq::empty(), optional: Seq::empty() },
        },
        ConfigDirective::Route { network_or_ip, netmask, gateway, metric } => DirectiveModel {
            id: CommandId::Route,
            payload: Payload::Fields {
                required: seq![network_or_ip@],
                optional: seq![netmask.deep_view(), gateway.deep_view(), metric.deep_view()],
            },
        },
        ConfigDirective::RouteGateway { gw_or_dhcp } => DirectiveModel {
            id: CommandId::RouteGateway,
            payload: Payload::Fields { required: seq![gw_or_dhcp@], optional: Seq::empty() },
        },
        ConfigDirective::RouteMetric { m } => DirectiveModel {
            id: CommandId::RouteMetric,
            payload: Payload::Fields { required: seq![m@], optional: Seq::empty() },
        },
        _ => model_from_route_delay(d),
    }
}

/// The models of the directives for the commands `route-delay` through `tun-mtu-extra`.
#[verifier::opaque]
pub open spec fn model_from_route_delay(d: ConfigDirective) -> DirectiveModel {
    match d {
        ConfigDirective::RouteDelay { n, w } => DirectiveModel {
            id: CommandId::RouteDelay,
            payload: Payload::Fields {
                required: Seq::empty(),
                optional: seq![n.deep_view(), w.deep_view()],
            },
        },
        ConfigDirective::RouteUp { cmd } => DirectiveModel {
            id: CommandId::RouteUp,
            payload: Payload::Fields { required: seq![cmd@], optional: Seq::empty() },
        },
        ConfigDirective::RoutePreDown { cmd } => DirectiveModel {
            id: CommandId::RoutePreDown,
            payload: Payload::Fields { required: seq![cmd@], optional: Seq::empty() },
        },
        ConfigDirective::RouteNoexec => DirectiveModel {
            id: CommandId::RouteNoexec,
            payload: Payload::Fields { required: Seq::empty(), optional: Seq::empty() },
        },
        ConfigDirective::RouteNopull => DirectiveModel {
            id: CommandId::RouteNopull,
            payload: Payload::Fields { required: Seq::empty(), optional: Seq::empty() },
        },
        ConfigDirective::AllowPullFqdn => DirectiveModel {
            id: CommandId::AllowPullFqdn,
            payload: Payload::Fields { required: Seq::empty(), optional: Seq::empty() },
        },
        ConfigDirective::ClientNat { snat_or_dnat, network, netmask, alias } => DirectiveModel {
            id: CommandId::ClientNat,
            payload: Payload::Fields {
                required: seq![snat_or_dnat@, network@, netmask@, alias@],
                optional: Seq::empty(),
            },
        },
        ConfigDirective::RedirectGateway { flags } => DirectiveModel {
            id: CommandId::RedirectGateway,
            payload: Payload::Varargs(flags.deep_view()),
        },
        ConfigDirective::LinkMtu { n } => DirectiveModel {
            id: CommandId::LinkMtu,
            payload: Payload::Fields { required: seq![n@], optional: Seq::empty() },
        },
        ConfigDirective::RedirectPrivate { flags } => DirectiveModel {
            id: CommandId::RedirectPrivate,
            payload: Payload::OptionalVarargs(flags.deep_view()),
        },
        ConfigDirective::TunMtu { n } => DirectiveModel {
            id: CommandId::TunMtu,
            payload: Payload::Fields { required: seq![n@], optional: Seq::empty() },
        },
        ConfigDirective::TunMtuExtra { n } => DirectiveModel {
            id: CommandId::TunMtuExtra,
            payload: Payload::Fields { required: seq![n@], optional: Seq::empty() },
        },
        _ => model_from_mtu_disc(d),
    }
}

/// The models of the directives for the commands `mtu-disc` through `ping`.
#[verifier::opaque]
pub open spec fn model_from_mtu_disc(d: ConfigDirective) -> DirectiveModel {
    match d {
        ConfigDirective::MtuDisc { mtu_disc_type } => DirectiveModel {
            id: CommandId::MtuDisc,
            payload: Payload::Fields { required: seq![mtu_disc_type@], optional: Seq::empty() },
        },
        ConfigDirective::MtuTest => DirectiveModel {
            id: CommandId::MtuTest,
            payload: Payload::Fields { required: Seq::empty(), optional: Seq::empty() },
        },
        ConfigDirective::Fragment { max } => DirectiveModel {
            id: CommandId::Fragment,
            payload: Payload::Fields { required: seq![max@], optional: Seq::empty() },
        },
        ConfigDirective::Mssfix { max } => DirectiveModel {
            id: CommandId::Mssfix,
            payload: Payload::Fields { required: seq![max@], optional: Seq::empty() },
        },
        ConfigDirective::Sndbuf { size } => DirectiveModel {
            id: CommandId::Sndbuf,
            payload: Payload::Fields { required: seq![size@], optional: Seq::empty() },
        },
        ConfigDirective::Rcvbuf { size } => DirectiveModel {
            id: CommandId::Rcvbuf,
            payload: Payload::Fields { required: seq![size@], optional: Seq::empty() },
        },
        ConfigDirective::Mark { value } => DirectiveModel {
            id: CommandId::Mark,
            payload: Payload::Fields { required: seq![value@], optional: Seq::empty() },
        },
        ConfigDirective::SocketFlags { flags } => DirectiveModel {
            id: CommandId::SocketFlags,
            payload: Payload::Varargs(flags.deep_view()),
        },
        ConfigDirective::Txqueuelen { n } => DirectiveModel {
            id: CommandId::Txqueuelen,
            payload: Payload::Fields { required: seq![n@], optional: Seq::empty() },
        },
        ConfigDirective::Shaper { n } => DirectiveModel {
            id: CommandId::Shaper,
            payload: Payload::Fields { required: seq![n@], optional: Seq::empty() },
        },
        ConfigDirective::Inactive { n, bytes } => DirectiveModel {
            id: CommandId::Inactive,
            payload: Payload::Fields { required: seq![n@], optional: seq![bytes.deep_view()] },
        },
        ConfigDirective::Ping { n } => DirectiveModel {
            id: CommandId::Ping,
            payload: Payload::Fields { required: seq![n@], optional: Seq::empty() },
        },
        _ => model_from_ping_exit(d),
    }
}

/// The models of the directives for the commands `ping-exit` through `down`.
#[verifier::opaque]
pub open spec fn model_from_ping_exit(d: ConfigDirective) -> DirectiveModel {
    match d {
        ConfigDirective::PingExit { n } => DirectiveModel {
            id: CommandId::PingExit,
            payload: Payload::Fields { required: seq![n@], optional: Seq::empty() },
        },
        ConfigDirective::PingRestart { n } => DirectiveModel {
            id: CommandId::PingRestart,
            payload: Payload::Fields { required: seq![n@], optional: Seq::empty() },
        },
        ConfigDirective::Keepalive { interval, timeout } => DirectiveModel {
            id: CommandId::Keepalive,
            payload: Payload::Fields {
                required: seq![interval@, timeout@],
                optional: Seq::empty(),
            },
        },
        ConfigDirective::PingTimerRem => DirectiveModel {
            id: CommandId::PingTimerRem,
            payload: Payload::Fields { required: Seq::empty(), optional: Seq::empty() },
        },
        ConfigDirective::PersistTun => DirectiveModel {
            id: CommandId::PersistTun,
            payload: Payload::Fields { required: Seq::empty(), optional: Seq::empty() },
        },
        ConfigDirective::PersistKey => DirectiveModel {
            id: CommandId::PersistKey,
            payload: Payload::Fields { required: Seq::empty(), optional: Seq::empty() },
        },
        ConfigDirective::PersistLocalIp => DirectiveModel {
            id: CommandId::PersistLocalIp,
            payload: Payload::Fields { required: Seq::empty(), optional: Seq::empty() },
        },
        ConfigDirective::PersistRemoteIp => DirectiveModel {
            id: CommandId::PersistRemoteIp,
            payload: Payload::Fields { required: Seq::empty(), optional: Seq::empty() },
        },
        ConfigDirective::Mlock => DirectiveModel {
            id: CommandId::Mlock,
            payload: Payload::Fields { required: Seq::empty(), optional: Seq::empty() },
        },
        ConfigDirective::Up { cmd } => DirectiveModel {
            id: CommandId::Up,
            payload: Payload::Fields { required: seq![cmd@], optional: Seq::empty() },
        },
        ConfigDirective::UpDelay => DirectiveModel {
            id: CommandId::UpDelay,
            payload: Payload::Fields { required: Seq::empty(), optional: Seq::empty() },
        },
        ConfigDirective::Down { cmd } => DirectiveModel {
            id: CommandId::Down,
            payload: Payload::Fields { required: seq![cmd@], optional: Seq::empty() },
        },
        _ => model_from_down_pre(d),
    }
}

/// The models of the directives for the commands `down-pre` through `setcon`.
#[verifier::opaque]
pub open spec fn model_from_down_pre(d: ConfigDirective) -> DirectiveModel {
    match d {
        ConfigDirective::DownPre => DirectiveModel {
            id: CommandId::DownPre,
            payload: Payload::Fields { required: Seq::empty(), optional: Seq::empty() },
        },
        ConfigDirective::UpRestart => DirectiveModel {
            id: CommandId::UpRestart,
            payload: Payload::Fields { required: Seq::empty(), optional: Seq::empty() },
        },
        ConfigDirective::Setenv { name, value } => DirectiveModel {
            id: CommandId::Setenv,
            payload: Payload::Fields { required: seq![name@, value@], optional: Seq::empty() },
        },
        ConfigDirective::SetenvSafe { name, value } => DirectiveModel {
            id: CommandId::SetenvSafe,
            payload: Payload::Fields { required: seq![name@, value@], optional: Seq::empty() },
        },
        ConfigDirective::IgnoreUnknownOption { opts } => DirectiveModel {
            id: CommandId::IgnoreUnknownOption,
            payload: Payload::Varargs(opts.deep_view()),
        },
        ConfigDirective::ScriptSecurity { level } => DirectiveModel {
            id: CommandId::ScriptSecurity,
            payload: Payload::Fields { required: seq![level@], optional: Seq::empty() },
        },
        ConfigDirective::DisableOcc => DirectiveModel {
            id: CommandId::DisableOcc,
            payload: Payload::Fields { required: Seq::empty(), optional: Seq::empty() },
        },
        ConfigDirective::User { user } => DirectiveModel {
            id: CommandId::User,
            payload: Payload::Fields { required: seq![user@], optional: Seq::empty() },
        },
        ConfigDirective::Group { group } => DirectiveModel {
            id: CommandId::Group,
            payload: Payload::Fields { required: seq![group@], optional: Seq::empty() },
        },
        ConfigDirective::Cd { dir } => DirectiveModel {
            id: CommandId::Cd,
            payload: Payload::Fields { required: seq![dir@], optional: Seq::empty() },
        },
        ConfigDirective::Chroot { dir } => DirectiveModel {
            id: CommandId::Chroot,
            payload: Payload::Fields { required: seq![dir@], optional: Seq::empty() },
        },
        ConfigDirective::Setcon { context } => DirectiveModel {
            id: CommandId::Setcon,
            payload: Payload::Fields { required: seq![context@], optional: Seq::empty() },
        },
        _ => model_from_daemon(d),
    }
}

/// The models of the directives for the commands `daemon` through `fast-io`.
#[verifier::opaque]
pub open spec fn model_from_daemon(d: ConfigDirective) -> DirectiveModel {
    match d {
        ConfigDirective::Daemon { progname } => DirectiveModel {
            id: CommandId::Daemon,
            payload: Payload::Fields {
                required: Seq::empty(),
                optional: seq![progname.deep_view()],
            },
        },
        ConfigDirective::Syslog { progname } => DirectiveModel {
            id: CommandId::Syslog,
            payload: Payload::Fields {
                required: Seq::empty(),
                optional: seq![progname.deep_view()],
            },
        },
        ConfigDirective::ErrorsToStderr => DirectiveModel {
            id: CommandId::ErrorsToStderr,
            payload: Payload::Fields { required: Seq::empty(), optional: Seq::empty() },
        },
        ConfigDirective::Passtos => DirectiveModel {
            id: CommandId::Passtos,
            payload: Payload::Fields { required: Seq::empty(), optional: Seq::empty() },
        },
        ConfigDirective::Inetd { wait_or_nowait, progname } => DirectiveModel {
            id: CommandId::Inetd,
            payload: Payload::Fields {
                required: Seq::empty(),
                optional: seq![wait_or_nowait.deep_view(), progname.deep_view()],
            },
        },
        ConfigDirective::Log { file } => DirectiveModel {
            id: CommandId::Log,
            payload: Payload::Fields { required: seq![file@], optional: Seq::empty() },
        },
        ConfigDirective::LogAppend { file } => DirectiveModel {
            id: CommandId::LogAppend,
            payload: Payload::Fields { required: seq![file@], optional: Seq::empty() },
        },
        ConfigDirective::SuppressTimestamps => DirectiveModel {
            id: CommandId::SuppressTimestamps,
            payload: Payload::Fields { required: Seq::empty(), optional: Seq::empty() },
        },
        ConfigDirective::MachineReadableOutput => DirectiveModel {
            id: CommandId::MachineReadableOutput,
            payload: Payload::Fields { required: Seq::empty(), optional: Seq::empty() },
        },
        ConfigDirective::Writepid { file } => DirectiveModel {
            id: CommandId::Writepid,
            payload: Payload::Fields { required: seq![file@], optional: Seq::empty() },
        },
        ConfigDirective::Nice { n } => DirectiveModel {
            id: CommandId::Nice,
            payload: Payload::Fields { required: seq![n@], optional: Seq::empty() },
        },
        ConfigDirective::FastIo => DirectiveModel {
            id: CommandId::FastIo,
            payload: Payload::Fields { required: Seq::empty(), optional: Seq::empty() },
        },
        _ => model_from_multihome(d),
    }
}

/// The models of the directives for the commands `multihome` through `management-client`.
#[verifier::opaque]
pub open spec fn model_from_multihome(d: ConfigDirective) -> DirectiveModel {
    match d {
        ConfigDirective::Multihome => DirectiveModel {
            id: CommandId::Multihome,
            payload: Payload::Fields { required: Seq::empty(), optional: Seq::empty() },
        },
        ConfigDirective::Echo { parms } => DirectiveModel {
            id: CommandId::Echo,
            payload: Payload::OptionalVarargs(parms.deep_view()),
        },
        ConfigDirective::RemapUsr1 { signal } => DirectiveModel {
            id: CommandId::RemapUsr1,
            payload: Payload::Fields { required: seq![signal@], optional: Seq::empty() },
        },
        ConfigDirective::Verb { n } => DirectiveModel {
            id: CommandId::Verb,
            payload: Payload::Fields { required: seq![n@], optional: Seq::empty() },
        },
        ConfigDirective::Status { file, n } => DirectiveModel {
            id: CommandId::Status,
            payload: Payload::Fields { required: seq![file@], optional: seq![n.deep_view()] },
        },
        ConfigDirective::StatusVersion { n } => DirectiveModel {
            id: CommandId::StatusVersion,
            payload: Payload::Fields { required: Seq::empty(), optional: seq![n.deep_view()] },
        },
        ConfigDirective::Mute { n } => DirectiveModel {
            id: CommandId::Mute,
            payload: Payload::Fields { required: seq![n@], optional: Seq::empty() },
        },
        ConfigDirective::Compress { algorithm } => DirectiveModel {
            id: CommandId::Compress,
            payload: Payload::Fields {
                required: Seq::empty(),
                optional: seq![algorithm.deep_view()],
            },
        },
        ConfigDirective::CompLzo { mode } => DirectiveModel {
            id: CommandId::CompLzo,
            payload: Payload::Fields { required: Seq::empty(), optional: seq![mode.deep_view()] },
        },
        ConfigDirective::CompNoadapt => DirectiveModel {
            id: CommandId::CompNoadapt,
            payload: Payload::Fields { required: Seq::empty(), optional: Seq::empty() },
        },
        ConfigDirective::Management { ip, port, pw_file } => DirectiveModel {
            id: CommandId::Management,
            payload: Payload::Fields {
                required: seq![ip@, port@],
                optional: seq![pw_file.deep_view()],
            },
        },
        ConfigDirective::ManagementClient => DirectiveModel {
            id: CommandId::ManagementClient,
            payload: Payload::Fields { required: Seq::empty(), optional: Seq::empty() },
        },
        _ => model_from_management_query_passwords(d),
    }
}

/// The models of the directives for the commands `management-query-passwords` through `management-client-pf`.
#[verifier::opaque]
pub open spec fn model_from_management_query_passwords(d: ConfigDirective) -> DirectiveModel {
    match d {
        ConfigDirective::ManagementQueryPasswords => DirectiveModel {
            id: CommandId::ManagementQueryPasswords,
            payload: Payload::Fields { required: Seq::empty(), optional: Seq::empty() },
        },
        ConfigDirective::ManagementQueryProxy => DirectiveModel {
            id: CommandId::ManagementQueryProxy,
            payload: Payload::Fields { required: Seq::empty(), optional: Seq::empty() },
        },
        ConfigDirective::ManagementQueryRemote => DirectiveModel {
            id: CommandId::ManagementQueryRemote,
            payload: Payload::Fields { required: Seq::empty(), optional: Seq::empty() },
        },
        ConfigDirective::ManagementExternalKey => DirectiveModel {
            id: CommandId::ManagementExternalKey,
            payload: Payload::Fields { required: Seq::empty(), optional: Seq::empty() },
        },
        ConfigDirective::ManagementExternalCert { certificate_hint } => DirectiveModel {
            id: CommandId::ManagementExternalCert,
            payload: Payload::Fields { required: seq![certificate_hint@], optional: Seq::empty() },
        },
        ConfigDirective::ManagementForgetDisconnect => DirectiveModel {
            id: CommandId::ManagementForgetDisconnect,
            payload: Payload::Fields { required: Seq::empty(), optional: Seq::empty() },
        },
        ConfigDirective::ManagementHold => DirectiveModel {
            id: CommandId::ManagementHold,
            payload: Payload::Fields { required: Seq::empty(), optional: Seq::empty() },
        },
        ConfigDirective::ManagementSignal => DirectiveModel {
            id: CommandId::ManagementSignal,
            payload: Payload::Fields { required: Seq::empty(), optional: Seq::empty() },
        },
        ConfigDirective::ManagementLogCache { n } => DirectiveModel {
            id: CommandId::ManagementLogCache,
            payload: Payload::Fields { required: seq![n@], optional: Seq::empty() },
        },
        ConfigDirective::ManagementUpDown => DirectiveModel {
            id: CommandId::ManagementUpDown,
            payload: Payload::Fields { required: Seq::empty(), optional: Seq::empty() },
        },
        ConfigDirective::ManagementClientAuth => DirectiveModel {
            id: CommandId::ManagementClientAuth,
            payload: Payload::Fields { required: Seq::empty(), optional: Seq::empty() },
        },
        ConfigDirective::ManagementClientPf => DirectiveModel {
            id: CommandId::ManagementClientPf,
            payload: Payload::Fields { required: Seq::empty(), optional: Seq::empty() },
        },
        _ => model_from_management_client_user(d),
    }
}

/// The models of the directives for the commands `management-client-user` through `ifconfig-pool-persist`.
#[verifier::opaque]
pub open spec fn model_from_management_client_user(d: ConfigDirective) -> DirectiveModel {
    match d {
        ConfigDirective::ManagementClientUser { u } => DirectiveModel {
            id: CommandId::ManagementClientUser,
            payload: Payload::Fields { required: seq![u@], optional: Seq::empty() },
        },
        ConfigDirective::ManagementClientGroup { g } => DirectiveModel {
            id: CommandId::ManagementClientGroup,
            payload: Payload::Fields { required: seq![g@], optional: Seq::empty() },
        },
        ConfigDirective::Plugin { module_pathname, init_string } => DirectiveModel {
            id: CommandId::Plugin,
            payload: Payload::Fields {
                required: seq![module_pathname@],
                optional: seq![init_string.deep_view()],
            },
        },
        ConfigDirective::KeyingMaterialExporter { label, len } => DirectiveModel {
            id: CommandId::KeyingMaterialExporter,
            payload: Payload::Fields { required: seq![label@, len@], optional: Seq::empty() },
        },
        ConfigDirective::Server { network, netmask, nopool } => DirectiveModel {
            id: CommandId::Server,
            payload: Payload::Fields {
                required: seq![network@, netmask@],
                optional: seq![nopool.deep_view()],
            },
        },
        ConfigDirective::Push { option } => DirectiveModel {
            id: CommandId::Push,
            payload: Payload::Fields { required: seq![option@], optional: Seq::empty() },
        },
        ConfigDirective::PushReset => DirectiveModel {
            id: CommandId::PushReset,
            payload: Payload::Fields { required: Seq::empty(), optional: Seq::empty() },
        },
        ConfigDirective::PushRemove { opt } => DirectiveModel {
            id: CommandId::PushRemove,
            payload: Payload::Fields { required: seq![opt@], optional: Seq::empty() },
        },
        ConfigDirective::PushPeerInfo => DirectiveModel {
            id: CommandId::PushPeerInfo,
            payload: Payload::Fields { required: Seq::empty(), optional: Seq::empty() },
        },
        ConfigDirective::Disable => DirectiveModel {
            id: CommandId::Disable,
            payload: Payload::Fields { required: Seq::empty(), optional: Seq::empty() },
        },
        ConfigDirective::IfconfigPool { start_ip, end_ip, netmask } => DirectiveModel {
            id: CommandId::IfconfigPool,
            payload: Payload::Fields {
                required: seq![start_ip@, end_ip@],
                optional: seq![netmask.deep_view()],
            },
        },
        ConfigDirective::IfconfigPoolPersist { file, seconds } => DirectiveModel {
            id: CommandId::IfconfigPoolPersist,
            payload: Payload::Fields { required: seq![file@], optional: seq![seconds.deep_view()] },
        },
        _ => model_from_ifconfig_pool_linear(d),
    }
}

/// The models of the directives for the commands `ifconfig-pool-linear` through `bcast-buffers`.
#[verifier::opaque]
pub open spec fn model_from_ifconfig_pool_linear(d: ConfigDirective) -> DirectiveModel {
    match d {
        ConfigDirective::IfconfigPoolLinear => DirectiveModel {
            id: CommandId::IfconfigPoolLinear,
            payload: Payload::Fields { required: Seq::empty(), optional: Seq::empty() },
        },
        ConfigDirective::IfconfigPush { local, remote_netmask, alias } => DirectiveModel {
            id: CommandId::IfconfigPush,
            payload: Payload::Fields {
                required: seq![local@, remote_netmask@],
                optional: seq![alias.deep_view()],
            },
        },
        ConfigDirective::Iroute { network, netmask } => DirectiveModel {
            id: CommandId::Iroute,
            payload: Payload::Fields {
                required: seq![network@],
                optional: seq![netmask.deep_view()],
            },
        },
        ConfigDirective::ClientToClient => DirectiveModel {
            id: CommandId::ClientToClient,
            payload: Payload::Fields { required: Seq::empty(), optional: Seq::empty() },
        },
        ConfigDirective::DuplicateCn => DirectiveModel {
            id: CommandId::DuplicateCn,
            payload: Payload::Fields { required: Seq::empty(), optional: Seq::empty() },
        },
        ConfigDirective::ClientConnect { cmd } => DirectiveModel {
            id: CommandId::ClientConnect,
            payload: Payload::Fields { required: seq![cmd@], optional: Seq::empty() },
        },
        ConfigDirective::ClientDisconnect { cmd } => DirectiveModel {
            id: CommandId::ClientDisconnect,
            payload: Payload::Fields { required: seq![cmd@], optional: Seq::empty() },
        },
        ConfigDirective::ClientConfigDir { dir } => DirectiveModel {
            id: CommandId::ClientConfigDir,
            payload: Payload::Fields { required: seq![dir@], optional: Seq::empty() },
        },
        ConfigDirective::CcdExclusive => DirectiveModel {
            id: CommandId::CcdExclusive,
            payload: Payload::Fields { required: Seq::empty(), optional: Seq::empty() },
        },
        ConfigDirective::TmpDir { dir } => DirectiveModel {
            id: CommandId::TmpDir,
            payload: Payload::Fields { required: seq![dir@], optional: Seq::empty() },
        },
        ConfigDirective::HashSize { r, v } => DirectiveModel {
            id: CommandId::HashSize,
            payload: Payload::Fields { required: seq![r@, v@], optional: Seq::empty() },
        },
        ConfigDirective::BcastBuffers { n } => DirectiveModel {
            id: CommandId::BcastBuffers,
            payload: Payload::Fields { required: seq![n@], optional: Seq::empty() },
        },
        _ => model_from_tcp_queue_limit(d),
    }
}

/// The models of the directives for the commands `tcp-queue-limit` through `client-cert-not-required`.
#[verifier::opaque]
pub open spec fn model_from_tcp_queue_limit(d: ConfigDirective) -> DirectiveModel {
    match d {
        ConfigDirective::TcpQueueLimit { n } => DirectiveModel {
            id: CommandId::TcpQueueLimit,
            payload: Payload::Fields { required: seq![n@], optional: Seq::empty() },
        },
        ConfigDirective::TcpNodelay => DirectiveModel {
            id: CommandId::TcpNodelay,
            payload: Payload::Fields { required: Seq::empty(), optional: Seq::empty() },
        },
        ConfigDirective::MaxClients { n } => DirectiveModel {
            id: CommandId::MaxClients,
            payload: Payload::Fields { required: seq![n@], optional: Seq::empty() },
        },
        ConfigDirective::MaxRoutesPerClient { n } => DirectiveModel {
            id: CommandId::MaxRoutesPerClient,
            payload: Payload::Fields { required: seq![n@], optional: Seq::empty() },
        },
        ConfigDirective::StaleRoutesCheck { n, t } => DirectiveModel {
            id: CommandId::StaleRoutesCheck,
            payload: Payload::Fields { required: seq![n@], optional: seq![t.deep_view()] },
        },
        ConfigDirective::ConnectFreq { n, sec } => DirectiveModel {
            id: CommandId::ConnectFreq,
            payload: Payload::Fields { required: seq![n@, sec@], optional: Seq::empty() },
        },
        ConfigDirective::LearnAddress { cmd } => DirectiveModel {
            id: CommandId::LearnAddress,
            payload: Payload::Fields { required: seq![cmd@], optional: Seq::empty() },
        },
        ConfigDirective::AuthUserPassVerify { cmd, method } => DirectiveModel {
            id: CommandId::AuthUserPassVerify,
            payload: Payload::Fields { required: seq![cmd@, method@], optional: Seq::empty() },
        },
        ConfigDirective::AuthGenToken { lifetime } => DirectiveModel {
            id: CommandId::AuthGenToken,
            payload: Payload::Fields {
                required: Seq::empty(),
                optional: seq![lifetime.deep_view()],
            },
        },
        ConfigDirective::OptVerify => DirectiveModel {
            id: CommandId::OptVerify,
            payload: Payload::Fields { required: Seq::empty(), optional: Seq::empty() },
        },
        ConfigDirective::AuthUserPassOptional => DirectiveModel {
            id: CommandId::AuthUserPassOptional,
            payload: Payload::Fields { required: Seq::empty(), optional: Seq::empty() },
        },
        ConfigDirective::ClientCertNotRequired => DirectiveModel {
            id: CommandId::ClientCertNotRequired,
            payload: Payload::Fields { required: Seq::empty(), optional: Seq::empty() },
        },
        _ => model_from_verify_client_cert(d),
    }
}

/// The models of the directives for the commands `verify-client-cert` through `server-poll-timeout`.
#[verifier::opaque]
pub open spec fn model_from_verify_client_cert(d: ConfigDirective) -> DirectiveModel {
    match d {
        ConfigDirective::VerifyClientCert { none_optional_require } => DirectiveModel {
            id: CommandId::VerifyClientCert,
            payload: Payload::Fields {
                required: seq![none_optional_require@],
                optional: Seq::empty(),
            },
        },
        ConfigDirective::UsernameAsCommonName => DirectiveModel {
            id: CommandId::UsernameAsCommonName,
            payload: Payload::Fields { required: Seq::empty(), optional: Seq::empty() },
        },
        ConfigDirective::CompatNames { no_remapping } => DirectiveModel {
            id: CommandId::CompatNames,
            payload: Payload::Fields {
                required: Seq::empty(),
                optional: seq![no_remapping.deep_view()],
            },
        },
        ConfigDirective::NoNameRemapping => DirectiveModel {
            id: CommandId::NoNameRemapping,
            payload: Payload::Fields { required: Seq::empty(), optional: Seq::empty() },
        },
        ConfigDirective::PortShare { host, port, dir } => DirectiveModel {
            id: CommandId::PortShare,
            payload: Payload::Fields {
                required: seq![host@, port@],
                optional: seq![dir.deep_view()],
            },
        },
        ConfigDirective::Client => DirectiveModel {
            id: CommandId::Client,
            payload: Payload::Fields { required: Seq::empty(), optional: Seq::empty() },
        },
        ConfigDirective::Pull => DirectiveModel {
            id: CommandId::Pull,
            payload: Payload::Fields { required: Seq::empty(), optional: Seq::empty() },
        },
        ConfigDirective::PullFilter { accept_or_ignore_or_reject, text } => DirectiveModel {
            id: CommandId::PullFilter,
            payload: Payload::Fields {
                required: seq![accept_or_ignore_or_reject@, text@],
                optional: Seq::empty(),
            },
        },
        ConfigDirective::AuthUserPass { up } => DirectiveModel {
            id: CommandId::AuthUserPass,
            payload: Payload::Fields { required: Seq::empty(), optional: seq![up.deep_view()] },
        },
        ConfigDirective::AuthRetry { auth_retry_type } => DirectiveModel {
            id: CommandId::AuthRetry,
            payload: Payload::Fields { required: seq![auth_retry_type@], optional: Seq::empty() },
        },
        ConfigDirective::StaticChallenge { t, e } => DirectiveModel {
            id: CommandId::StaticChallenge,
            payload: Payload::Fields { required: seq![t@, e@], optional: Seq::empty() },
        },
        ConfigDirective::ServerPollTimeout { n } => DirectiveModel {
            id: CommandId::ServerPollTimeout,
            payload: Payload::Fields { required: seq![n@], optional: Seq::empty() },
        },
        _ => model_from_connect_timeout(d),
    }
}

/// The models of the directives for the commands `connect-timeout` through `engine`.
#[verifier::opaque]
pub open spec fn model_from_connect_timeout(d: ConfigDirective) -> DirectiveModel {
    match d {
        ConfigDirective::ConnectTimeout { n } => DirectiveModel {
            id: CommandId::ConnectTimeout,
            payload: Payload::Fields { required: seq![n@], optional: Seq::empty() },
        },
        ConfigDirective::ExplicitExitNotify { n } => DirectiveModel {
            id: CommandId::ExplicitExitNotify,
            payload: Payload::Fields { required: Seq::empty(), optional: seq![n.deep_view()] },
        },
        ConfigDirective::AllowRecursiveRouting => DirectiveModel {
            id: CommandId::AllowRecursiveRouting,
            payload: Payload::Fields { required: Seq::empty(), optional: Seq::empty() },
        },
        ConfigDirective::Secret { file, direction } => DirectiveModel {
            id: CommandId::Secret,
            payload: Payload::WithFile { file: file@, optional: seq![direction.deep_view()] },
        },
        ConfigDirective::KeyDirection { direction } => DirectiveModel {
            id: CommandId::KeyDirection,
            payload: Payload::Fields { required: seq![direction@], optional: Seq::empty() },
        },
        ConfigDirective::Auth { alg } => DirectiveModel {
            id: CommandId::Auth,
            payload: Payload::Fields { required: seq![alg@], optional: Seq::empty() },
        },
        ConfigDirective::Cipher { alg } => DirectiveModel {
            id: CommandId::Cipher,
            payload: Payload::Fields { required: seq![alg@], optional: Seq::empty() },
        },
        ConfigDirective::NcpCiphers { cipher_list } => DirectiveModel {
            id: CommandId::NcpCiphers,
            payload: Payload::Fields { required: seq![cipher_list@], optional: Seq::empty() },
        },
        ConfigDirective::NcpDisable => DirectiveModel {
            id: CommandId::NcpDisable,
            payload: Payload::Fields { required: Seq::empty(), optional: Seq::empty() },
        },
        ConfigDirective::Keysize { n } => DirectiveModel {
            id: CommandId::Keysize,
            payload: Payload::Fields { required: seq![n@], optional: Seq::empty() },
        },
        ConfigDirective::Prng { alg, nsl } => DirectiveModel {
            id: CommandId::Prng,
            payload: Payload::Fields { required: seq![alg@], optional: seq![nsl.deep_view()] },
        },
        ConfigDirective::Engine { engine_name } => DirectiveModel {
            id: CommandId::Engine,
            payload: Payload::Fields {
                required: Seq::empty(),
                optional: seq![engine_name.deep_view()],
            },
        },
        _ => model_from_no_replay(d),
    }
}

/// The models of the directives for the commands `no-replay` through `capath`.
#[verifier::opaque]
pub open spec fn model_from_no_replay(d: ConfigDirective) -> DirectiveModel {
    match d {
        ConfigDirective::NoReplay => DirectiveModel {
            id: CommandId::NoReplay,
            payload: Payload::Fields { required: Seq::empty(), optional: Seq::empty() },
        },
        ConfigDirective::ReplayWindow { n, t } => DirectiveModel {
            id: CommandId::ReplayWindow,
            payload: Payload::Fields { required: seq![n@], optional: seq![t.deep_view()] },
        },
        ConfigDirective::MuteReplayWarnings => DirectiveModel {
            id: CommandId::MuteReplayWarnings,
            payload: Payload::Fields { required: Seq::empty(), optional: Seq::empty() },
        },
        ConfigDirective::ReplayPersist { file } => DirectiveModel {
            id: CommandId::ReplayPersist,
            payload: Payload::Fields { required: seq![file@], optional: Seq::empty() },
        },
        ConfigDirective::NoIv => DirectiveModel {
            id: CommandId::NoIv,
            payload: Payload::Fields { required: Seq::empty(), optional: Seq::empty() },
        },
        ConfigDirective::UsePredictionResistance => DirectiveModel {
            id: CommandId::UsePredictionResistance,
            payload: Payload::Fields { required: Seq::empty(), optional: Seq::empty() },
        },
        ConfigDirective::TestCrypto => DirectiveModel {
            id: CommandId::TestCrypto,
            payload: Payload::Fields { required: Seq::empty(), optional: Seq::empty() },
        },
        ConfigDirective::TlsAuth { file, direction } => DirectiveModel {
            id: CommandId::TlsAuth,
            payload: Payload::WithFile { file: file@, optional: seq![direction.deep_view()] },
        },
        ConfigDirective::TlsServer => DirectiveModel {
            id: CommandId::TlsServer,
            payload: Payload::Fields { required: Seq::empty(), optional: Seq::empty() },
        },
        ConfigDirective::TlsClient => DirectiveModel {
            id: CommandId::TlsClient,
            payload: Payload::Fields { required: Seq::empty(), optional: Seq::empty() },
        },
        ConfigDirective::Ca { file } => DirectiveModel {
            id: CommandId::Ca,
            payload: Payload::WithFile { file: file@, optional: Seq::empty() },
        },
        ConfigDirective::Capath { dir } => DirectiveModel {
            id: CommandId::Capath,
            payload: Payload::Fields { required: seq![dir@], optional: Seq::empty() },
        },
        _ => model_from_dh(d),
    }
}

/// The models of the directives for the commands `dh` through `pkcs11-id-management`.
#[verifier::opaque]
pub open spec fn model_from_dh(d: ConfigDirective) -> DirectiveModel {
    match d {
        ConfigDirective::Dh { file } => DirectiveModel {
            id: CommandId::Dh,
            payload: Payload::WithFile { file: file@, optional: Seq::empty() },
        },
        ConfigDirective::EcdhCurve { name } => DirectiveModel {
            id: CommandId::EcdhCurve,
            payload: Payload::Fields { required: seq![name@], optional: Seq::empty() },
        },
        ConfigDirective::Cert { file } => DirectiveModel {
            id: CommandId::Cert,
            payload: Payload::WithFile { file: file@, optional: Seq::empty() },
        },
        ConfigDirective::ExtraCerts { file } => DirectiveModel {
            id: CommandId::ExtraCerts,
            payload: Payload::WithFile { file: file@, optional: Seq::empty() },
        },
        ConfigDirective::Key { file } => DirectiveModel {
            id: CommandId::Key,
            payload: Payload::WithFile { file: file@, optional: Seq::empty() },
        },
        ConfigDirective::TlsVersionMin { version, or_highest } => DirectiveModel {
            id: CommandId::TlsVersionMin,
            payload: Payload::Fields {
                required: seq![version@],
                optional: seq![or_highest.deep_view()],
            },
        },
        ConfigDirective::TlsVersionMax { version } => DirectiveModel {
            id: CommandId::TlsVersionMax,
            payload: Payload::Fields { required: seq![version@], optional: Seq::empty() },
        },
        ConfigDirective::Pkcs12 { file } => DirectiveModel {
            id: CommandId::Pkcs12,
            payload: Payload::WithFile { file: file@, optional: Seq::empty() },
        },
        ConfigDirective::VerifyHash { hash } => DirectiveModel {
            id: CommandId::VerifyHash,
            payload: Payload::Fields { required: seq![hash@], optional: Seq::empty() },
        },
        ConfigDirective::Pkcs11CertPrivate { providers } => DirectiveModel {
            id: CommandId::Pkcs11CertPrivate,
            payload: Payload::Varargs(providers.deep_view()),
        },
        ConfigDirective::Pkcs11Id { name } => DirectiveModel {
            id: CommandId::Pkcs11Id,
            payload: Payload::Fields { required: seq![name@], optional: Seq::empty() },
        },
        ConfigDirective::Pkcs11IdManagement => DirectiveModel {
            id: CommandId::Pkcs11IdManagement,
            payload: Payload::Fields { required: Seq::empty(), optional: Seq::empty() },
        },
        _ => model_from_pkcs11_pin_cache(d),
    }
}

/// The models of the directives for the commands `pkcs11-pin-cache` through `hand-window`.
#[verifier::opaque]
pub open spec fn model_from_pkcs11_pin_cache(d: ConfigDirective) -> DirectiveModel {
    match d {
        ConfigDirective::Pkcs11PinCache { seconds } => DirectiveModel {
            id: CommandId::Pkcs11PinCache,
            payload: Payload::Fields { required: seq![seconds@], optional: Seq::empty() },
        },
        ConfigDirective::Pkcs11ProtectedAuthentication { providers } => DirectiveModel {
            id: CommandId::Pkcs11ProtectedAuthentication,
            payload: Payload::Varargs(providers.deep_view()),
        },
        ConfigDirective::Pkcs11Providers { providers } => DirectiveModel {
            id: CommandId::Pkcs11Providers,
            payload: Payload::Varargs(providers.deep_view()),
        },
        ConfigDirective::Pkcs11PrivateMode { modes } => DirectiveModel {
            id: CommandId::Pkcs11PrivateMode,
            payload: Payload::Varargs(modes.deep_view()),
        },
        ConfigDirective::Cryptoapicert { select_string } => DirectiveModel {
            id: CommandId::Cryptoapicert,
            payload: Payload::Fields { required: seq![select_string@], optional: Seq::empty() },
        },
        ConfigDirective::KeyMethod { m } => DirectiveModel {
            id: CommandId::KeyMethod,
            payload: Payload::Fields { required: seq![m@], optional: Seq::empty() },
        },
        ConfigDirective::TlsCipher { l } => DirectiveModel {
            id: CommandId::TlsCipher,
            payload: Payload::Fields { required: seq![l@], optional: Seq::empty() },
        },
        ConfigDirective::TlsTimeout { n } => DirectiveModel {
            id: CommandId::TlsTimeout,
            payload: Payload::Fields { required: seq![n@], optional: Seq::empty() },
        },
        ConfigDirective::RenegBytes { n } => DirectiveModel {
            id: CommandId::RenegBytes,
            payload: Payload::Fields { required: seq![n@], optional: Seq::empty() },
        },
        ConfigDirective::RenegPkts { n } => DirectiveModel {
            id: CommandId::RenegPkts,
            payload: Payload::Fields { required: seq![n@], optional: Seq::empty() },
        },
        ConfigDirective::RenegSec { n } => DirectiveModel {
            id: CommandId::RenegSec,
            payload: Payload::Fields { required: seq![n@], optional: Seq::empty() },
        },
        ConfigDirective::HandWindow { n } => DirectiveModel {
            id: CommandId::HandWindow,
            payload: Payload::Fields { required: seq![n@], optional: Seq::empty() },
        },
        _ => model_from_tran_window(d),
    }
}

/// The models of the directives for the commands `tran-window` through `x509-track`.
#[verifier::opaque]
pub open spec fn model_from_tran_window(d: ConfigDirective) -> DirectiveModel {
    match d {
        ConfigDirective::TranWindow { n } => DirectiveModel {
            id: CommandId::TranWindow,
            payload: Payload::Fields { required: seq![n@], optional: Seq::empty() },
        },
        ConfigDirective::SingleSession => DirectiveModel {
            id: CommandId::SingleSession,
            payload: Payload::Fields { required: Seq::empty(), optional: Seq::empty() },
        },
        ConfigDirective::TlsExit => DirectiveModel {
            id: CommandId::TlsExit,
            payload: Payload::Fields { required: Seq::empty(), optional: Seq::empty() },
        },
        ConfigDirective::TlsCrypt { file } => DirectiveModel {
            id: CommandId::TlsCrypt,
            payload: Payload::WithFile { file: file@, optional: Seq::empty() },
        },
        ConfigDirective::Askpass { file } => DirectiveModel {
            id: CommandId::Askpass,
            payload: Payload::Fields { required: Seq::empty(), optional: seq![file.deep_view()] },
        },
        ConfigDirective::AuthNocache => DirectiveModel {
            id: CommandId::AuthNocache,
            payload: Payload::Fields { required: Seq::empty(), optional: Seq::empty() },
        },
        ConfigDirective::AuthToken { token } => DirectiveModel {
            id: CommandId::AuthToken,
            payload: Payload::Fields { required: seq![token@], optional: Seq::empty() },
        },
        ConfigDirective::TlsVerify { cmd } => DirectiveModel {
            id: CommandId::TlsVerify,
            payload: Payload::Fields { required: seq![cmd@], optional: Seq::empty() },
        },
        ConfigDirective::TlsExportCert { directory } => DirectiveModel {
            id: CommandId::TlsExportCert,
            payload: Payload::Fields { required: seq![directory@], optional: Seq::empty() },
        },
        ConfigDirective::X509UsernameField { fieldname } => DirectiveModel {
            id: CommandId::X509UsernameField,
            payload: Payload::Fields { required: seq![fieldname@], optional: Seq::empty() },
        },
        ConfigDirective::VerifyX509Name { name, verify_x509_name_type } => DirectiveModel {
            id: CommandId::VerifyX509Name,
            payload: Payload::Fields {
                required: seq![name@, verify_x509_name_type@],
                optional: Seq::empty(),
            },
        },
        ConfigDirective::X509Track { attribute } => DirectiveModel {
            id: CommandId::X509Track,
            payload: Payload::Fields { required: seq![attribute@], optional: Seq::empty() },
        },
        _ => model_from_ns_cert_type(d),
    }
}

/// The models of the directives for the commands `ns-cert-type` through `mktun`.
#[verifier::opaque]
pub open spec fn model_from_ns_cert_type(d: ConfigDirective) -> DirectiveModel {
    match d {
        ConfigDirective::NsCertType { client_or_server } => DirectiveModel {
            id: CommandId::NsCertType,
            payload: Payload::Fields { required: seq![client_or_server@], optional: Seq::empty() },
        },
        ConfigDirective::RemoteCertKu { values } => DirectiveModel {
            id: CommandId::RemoteCertKu,
            payload: Payload::Varargs(values.deep_view()),
        },
        ConfigDirective::RemoteCertEku { oid } => DirectiveModel {
            id: CommandId::RemoteCertEku,
            payload: Payload::Fields { required: seq![oid@], optional: Seq::empty() },
        },
        ConfigDirective::RemoteCertTls { client_or_server } => DirectiveModel {
            id: CommandId::RemoteCertTls,
            payload: Payload::Fields { required: seq![client_or_server@], optional: Seq::empty() },
        },
        ConfigDirective::CrlVerify { file, direction } => DirectiveModel {
            id: CommandId::CrlVerify,
            payload: Payload::WithFile { file: file@, optional: seq![direction.deep_view()] },
        },
        ConfigDirective::ShowCiphers => DirectiveModel {
            id: CommandId::ShowCiphers,
            payload: Payload::Fields { required: Seq::empty(), optional: Seq::empty() },
        },
        ConfigDirective::ShowDigests => DirectiveModel {
            id: CommandId::ShowDigests,
            payload: Payload::Fields { required: Seq::empty(), optional: Seq::empty() },
        },
        ConfigDirective::ShowTls => DirectiveModel {
            id: CommandId::ShowTls,
            payload: Payload::Fields { required: Seq::empty(), optional: Seq::empty() },
        },
        ConfigDirective::ShowEngines => DirectiveModel {
            id: CommandId::ShowEngines,
            payload: Payload::Fields { required: Seq::empty(), optional: Seq::empty() },
        },
        ConfigDirective::ShowCurves => DirectiveModel {
            id: CommandId::ShowCurves,
            payload: Payload::Fields { required: Seq::empty(), optional: Seq::empty() },
        },
        ConfigDirective::Genkey => DirectiveModel {
            id: CommandId::Genkey,
            payload: Payload::Fields { required: Seq::empty(), optional: Seq::empty() },
        },
        ConfigDirective::Mktun => DirectiveModel {
            id: CommandId::Mktun,
            payload: Payload::Fields { required: Seq::empty(), optional: Seq::empty() },
        },
        _ => model_from_rmtun(d),
    }
}

/// The models of the directives for the commands `rmtun` through `pause-exit`.
#[verifier::opaque]
pub open spec fn model_from_rmtun(d: ConfigDirective) -> DirectiveModel {
    match d {
        ConfigDirective::Rmtun => DirectiveModel {
            id: CommandId::Rmtun,
            payload: Payload::Fields { required: Seq::empty(), optional: Seq::empty() },
        },
        ConfigDirective::WinSys { path } => DirectiveModel {
            id: CommandId::WinSys,
            payload: Payload::Fields { required: seq![path@], optional: Seq::empty() },
        },
        ConfigDirective::IpWin32 { method } => DirectiveModel {
            id: CommandId::IpWin32,
            payload: Payload::Fields { required: seq![method@], optional: Seq::empty() },
        },
        ConfigDirective::RouteMethod { m } => DirectiveModel {
            id: CommandId::RouteMethod,
            payload: Payload::Fields { required: seq![m@], optional: Seq::empty() },
        },
        ConfigDirective::DhcpOption { dhcp_option_type, parm } => DirectiveModel {
            id: CommandId::DhcpOption,
            payload: Payload::Fields {
                required: seq![dhcp_option_type@],
                optional: seq![parm.deep_view()],
            },
        },
        ConfigDirective::TapSleep { n } => DirectiveModel {
            id: CommandId::TapSleep,
            payload: Payload::Fields { required: seq![n@], optional: Seq::empty() },
        },
        ConfigDirective::ShowNetUp => DirectiveModel {
            id: CommandId::ShowNetUp,
            payload: Payload::Fields { required: Seq::empty(), optional: Seq::empty() },
        },
        ConfigDirective::BlockOutsideDns => DirectiveModel {
            id: CommandId::BlockOutsideDns,
            payload: Payload::Fields { required: Seq::empty(), optional: Seq::empty() },
        },
        ConfigDirective::DhcpRenew => DirectiveModel {
            id: CommandId::DhcpRenew,
            payload: Payload::Fields { required: Seq::empty(), optional: Seq::empty() },
        },
        ConfigDirective::DhcpRelease => DirectiveModel {
            id: CommandId::DhcpRelease,
            payload: Payload::Fields { required: Seq::empty(), optional: Seq::empty() },
        },
        ConfigDirective::RegisterDns => DirectiveModel {
            id: CommandId::RegisterDns,
            payload: Payload::Fields { required: Seq::empty(), optional: Seq::empty() },
        },
        ConfigDirective::PauseExit => DirectiveModel {
            id: CommandId::PauseExit,
            payload: Payload::Fields { required: Seq::empty(), optional: Seq::empty() },
        },
        _ => model_from_service(d),
    }
}

/// The models of the directives for the commands `service` through `ifconfig-ipv6-push`.
#[verifier::opaque]
pub open spec fn model_from_service(d: ConfigDirective) -> DirectiveModel {
    match d {
        ConfigDirective::Service { exit_event, initial_state_of_event } => DirectiveModel {
            id: CommandId::Service,
            payload: Payload::Fields {
                required: seq![exit_event@],
                optional: seq![initial_state_of_event.deep_view()],
            },
        },
        ConfigDirective::ShowAdapters => DirectiveModel {
            id: CommandId::ShowAdapters,
            payload: Payload::Fields { required: Seq::empty(), optional: Seq::empty() },
        },
        ConfigDirective::AllowNonadmin { tap_adapter } => DirectiveModel {
            id: CommandId::AllowNonadmin,
            payload: Payload::Fields {
                required: Seq::empty(),
                optional: seq![tap_adapter.deep_view()],
            },
        },
        ConfigDirective::ShowValidSubnets => DirectiveModel {
            id: CommandId::ShowValidSubnets,
            payload: Payload::Fields { required: Seq::empty(), optional: Seq::empty() },
        },
        ConfigDirective::ShowNet => DirectiveModel {
            id: CommandId::ShowNet,
            payload: Payload::Fields { required: Seq::empty(), optional: Seq::empty() },
        },
        ConfigDirective::ShowPkcs11Ids { provider, cert_private } => DirectiveModel {
            id: CommandId::ShowPkcs11Ids,
            payload: Payload::Fields {
                required: Seq::empty(),
                optional: seq![provider.deep_view(), cert_private.deep_view()],
            },
        },
        ConfigDirective::ShowGateway { v6target } => DirectiveModel {
            id: CommandId::ShowGateway,
            payload: Payload::Fields {
                required: Seq::empty(),
                optional: seq![v6target.deep_view()],
            },
        },
        ConfigDirective::IfconfigIpv6 { ipv6addr, ipv6remote } => DirectiveModel {
            id: CommandId::IfconfigIpv6,
            payload: Payload::Fields {
                required: seq![ipv6addr@, ipv6remote@],
                optional: Seq::empty(),
            },
        },
        ConfigDirective::RouteIpv6 { ipv6addr, gateway, metric } => DirectiveModel {
            id: CommandId::RouteIpv6,
            payload: Payload::Fields {
                required: seq![ipv6addr@],
                optional: seq![gateway.deep_view(), metric.deep_view()],
            },
        },
        ConfigDirective::ServerIpv6 { ipv6addr } => DirectiveModel {
            id: CommandId::ServerIpv6,
            payload: Payload::Fields { required: seq![ipv6addr@], optional: Seq::empty() },
        },
        ConfigDirective::IfconfigIpv6Pool { ipv6addr } => DirectiveModel {
            id: CommandId::IfconfigIpv6Pool,
            payload: Payload::Fields { required: seq![ipv6addr@], optional: Seq::empty() },
        },
        ConfigDirective::IfconfigIpv6Push { ipv6addr, ipv6remote } => DirectiveModel {
            id: CommandId::IfconfigIpv6Push,
            payload: Payload::Fields {
                required: seq![ipv6addr@, ipv6remote@],
                optional: Seq::empty(),
            },
        },
        _ => model_from_iroute_ipv6(d),
    }
}

/// The models of the directives for the commands `iroute-ipv6` through `server-bridge`.
#[verifier::opaque]
pub open spec fn model_from_iroute_ipv6(d: ConfigDirective) -> DirectiveModel {
    match d {
        ConfigDirective::IrouteIpv6 { ipv6addr } => DirectiveModel {
            id: CommandId::IrouteIpv6,
            payload: Payload::Fields { required: seq![ipv6addr@], optional: Seq::empty() },
        },
        ConfigDirective::ServerBridge(arg) => DirectiveModel {
            id: CommandId::ServerBridge,
            payload: Payload::Bridge(arg@),
        },
        _ => arbitrary(),
    }
}

impl View for ConfigDirective {
    type V = DirectiveModel;

    open spec fn view(&self) -> DirectiveModel {
        model_from_help(*self)
    }
}

/// Narrows the model of a directive of the commands `help`
/// through `show-proxy-settings` to its own group of the model definition.
#[verifier::rlimit(100)]
pub proof fn model_via_help(d: &ConfigDirective)
    requires
        (*d) is Help || (*d) is Config || (*d) is Mode || (*d) is Local || (*d) is Remote || (*d) is RemoteRandomHostname || (*d) is ProtoForce || (*d) is RemoteRandom || (*d) is Proto || (*d) is ConnectRetry || (*d) is ConnectRetryMax || (*d) is ShowProxySettings,
    ensures
        d@ == model_from_help(*d),
{
}

/// Narrows the model of a directive of the commands `http-proxy`
/// through `nobind` to its own group of the model definition.
#[verifier::rlimit(100)]
pub proof fn model_via_http_proxy(d: &ConfigDirective)
    requires
        (*d) is HttpProxy || (*d) is HttpProxyOption || (*d) is HttpProxyUserPass || (*d) is SocksProxy || (*d) is ResolvRetry || (*d) is Float || (*d) is Ipchange || (*d) is Port || (*d) is Lport || (*d) is Rport || (*d) is Bind || (*d) is Nobind,
    ensures
        d@ == model_from_http_proxy(*d),
{
    reveal(model_from_help);
}

/// Narrows the model of a directive of the commands `dev`
/// through `route-metric` to its own group of the model definition.
#[verifier::rlimit(100)]
pub proof fn model_via_dev(d: &ConfigDirective)
    requires
        (*d) is Dev || (*d) is DevType || (*d) is Topology || (*d) is DevNode || (*d) is Lladdr || (*d) is Iproute || (*d) is Ifconfig || (*d) is IfconfigNoexec || (*d) is IfconfigNowarn || (*d) is Route || (*d) is RouteGateway || (*d) is RouteMetric,
    ensures
        d@ == model_from_dev(*d),
{
    reveal(model_from_help);
    reveal(model_from_http_proxy);
}

/// Narrows the model of a directive of the commands `route-delay`
/// through `tun-mtu-extra` to its own group of the model definition.
#[verifier::rlimit(100)]
pub proof fn model_via_route_delay(d: &ConfigDirective)
    requires
        (*d) is RouteDelay || (*d) is RouteUp || (*d) is RoutePreDown || (*d) is RouteNoexec || (*d) is RouteNopull || (*d) is AllowPullFqdn || (*d) is ClientNat || (*d) is RedirectGateway || (*d) is LinkMtu || (*d) is RedirectPrivate || (*d) is TunMtu || (*d) is TunMtuExtra,
    ensures
        d@ == model_from_route_delay(*d),
{
    reveal(model_from_help);
    reveal(model_from_http_proxy);
    reveal(model_from_dev);
}

/// Narrows the model of a directive of the commands `mtu-disc`
/// through `ping` to its own group of the model definition.
#[verifier::rlimit(100)]
pub proof fn model_via_mtu_disc(d: &ConfigDirective)
    requires
        (*d) is MtuDisc || (*d) is MtuTest || (*d) is Fragment || (*d) is Mssfix || (*d) is Sndbuf || (*d) is Rcvbuf || (*d) is Mark || (*d) is SocketFlags || (*d) is Txqueuelen || (*d) is Shaper || (*d) is Inactive || (*d) is Ping,
    ensures
        d@ == model_from_mtu_disc(*d),
{
    reveal(model_from_help);
    reveal(model_from_http_proxy);
    reveal(model_from_dev);
    reveal(model_from_route_delay);
}

/// Narrows the model of a directive of the commands `ping-exit`
/// through `down` to its own group of the model definition.
#[verifier::rlimit(100)]
pub proof fn model_via_ping_exit(d: &ConfigDirective)
    requires
        (*d) is PingExit || (*d) is PingRestart || (*d) is Keepalive || (*d) is PingTimerRem || (*d) is PersistTun || (*d) is PersistKey || (*d) is PersistLocalIp || (*d) is PersistRemoteIp || (*d) is Mlock || (*d) is Up || (*d) is UpDelay || (*d) is Down,
    ensures
        d@ == model_from_ping_exit(*d),
{
    reveal(model_from_help);
    reveal(model_from_http_proxy);
    reveal(model_from_dev);
    reveal(model_from_route_delay);
    reveal(model_from_mtu_disc);
}

/// Narrows the model of a directive of the commands `down-pre`
/// through `setcon` to its own group of the model definition.
#[verifier::rlimit(100)]
pub proof fn model_via_down_pre(d: &ConfigDirective)
    requires
        (*d) is DownPre || (*d) is UpRestart || (*d) is Setenv || (*d) is SetenvSafe || (*d) is IgnoreUnknownOption || (*d) is ScriptSecurity || (*d) is DisableOcc || (*d) is User || (*d) is Group || (*d) is Cd || (*d) is Chroot || (*d) is Setcon,
    ensures
        d@ == model_from_down_pre(*d),
{
    reveal(model_from_help);
    reveal(model_from_http_proxy);
    reveal(model_from_dev);
    reveal(model_from_route_delay);
    reveal(model_from_mtu_disc);
    reveal(model_from_ping_exit);
}

/// Narrows the model of a directive of the commands `daemon`
/// through `fast-io` to its own group of the model definition.
#[verifier::rlimit(100)]
pub proof fn model_via_daemon(d: &ConfigDirective)
    requires
        (*d) is Daemon || (*d) is Syslog || (*d) is ErrorsToStderr || (*d) is Passtos || (*d) is Inetd || (*d) is Log || (*d) is LogAppend || (*d) is SuppressTimestamps || (*d) is MachineReadableOutput || (*d) is Writepid || (*d) is Nice || (*d) is FastIo,
    ensures
        d@ == model_from_daemon(*d),
{
    reveal(model_from_help);
    reveal(model_from_http_proxy);
    reveal(model_from_dev);
    reveal(model_from_route_delay);
    reveal(model_from_mtu_disc);
    reveal(model_from_ping_exit);
    reveal(model_from_down_pre);
}

/// Narrows the model of a directive of the commands `multihome`
/// through `management-client` to its own group of the model definition.
#[verifier::rlimit(100)]
pub proof fn model_via_multihome(d: &ConfigDirective)
    requires
        (*d) is Multihome || (*d) is Echo || (*d) is RemapUsr1 || (*d) is Verb || (*d) is Status || (*d) is StatusVersion || (*d) is Mute || (*d) is Compress || (*d) is CompLzo || (*d) is CompNoadapt || (*d) is Management || (*d) is ManagementClient,
    ensures
        d@ == model_from_multihome(*d),
{
    reveal(model_from_help);
    reveal(model_from_http_proxy);
    reveal(model_from_dev);
    reveal(model_from_route_delay);
    reveal(model_from_mtu_disc);
    reveal(model_from_ping_exit);
    reveal(model_from_down_pre);
    reveal(model_from_daemon);
}

/// Narrows the model of a directive of the commands `management-query-passwords`
/// through `management-client-pf` to its own group of the model definition.
#[verifier::rlimit(100)]
pub proof fn model_via_management_query_passwords(d: &ConfigDirective)
    requires
        (*d) is ManagementQueryPasswords || (*d) is ManagementQueryProxy || (*d) is ManagementQueryRemote || (*d) is ManagementExternalKey || (*d) is ManagementExternalCert || (*d) is ManagementForgetDisconnect || (*d) is ManagementHold || (*d) is ManagementSignal || (*d) is ManagementLogCache || (*d) is ManagementUpDown || (*d) is ManagementClientAuth || (*d) is ManagementClientPf,
    ensures
        d@ == model_from_management_query_passwords(*d),
{
    reveal(model_from_help);
    reveal(model_from_http_proxy);
    reveal(model_from_dev);
    reveal(model_from_route_delay);
    reveal(model_from_mtu_disc);
    reveal(model_from_ping_exit);
    reveal(model_from_down_pre);
    reveal(model_from_daemon);
    reveal(model_from_multihome);
}

/// Narrows the model of a directive of the commands `management-client-user`
/// through `ifconfig-pool-persist` to its own group of the model definition.
#[verifier::rlimit(100)]
pub proof fn model_via_management_client_user(d: &ConfigDirective)
    requires
        (*d) is ManagementClientUser || (*d) is ManagementClientGroup || (*d) is Plugin || (*d) is KeyingMaterialExporter || (*d) is Server || (*d) is Push || (*d) is PushReset || (*d) is PushRemove || (*d) is PushPeerInfo || (*d) is Disable || (*d) is IfconfigPool || (*d) is IfconfigPoolPersist,
    ensures
        d@ == model_from_management_client_user(*d),
{
    reveal(model_from_help);
    reveal(model_from_http_proxy);
    reveal(model_from_dev);
    reveal(model_from_route_delay);
    reveal(model_from_mtu_disc);
    reveal(model_from_ping_exit);
    reveal(model_from_down_pre);
    reveal(model_from_daemon);
    reveal(model_from_multihome);
    reveal(model_from_management_query_passwords);
}

/// Narrows the model of a directive of the commands `ifconfig-pool-linear`
/// through `bcast-buffers` to its own group of the model definition.
#[verifier::rlimit(100)]
pub proof fn model_via_ifconfig_pool_linear(d: &ConfigDirective)
    requires
        (*d) is IfconfigPoolLinear || (*d) is IfconfigPush || (*d) is Iroute || (*d) is ClientToClient || (*d) is DuplicateCn || (*d) is ClientConnect || (*d) is ClientDisconnect || (*d) is ClientConfigDir || (*d) is CcdExclusive || (*d) is TmpDir || (*d) is HashSize || (*d) is BcastBuffers,
    ensures
        d@ == model_from_ifconfig_pool_linear(*d),
{
    reveal(model_from_help);
    reveal(model_from_http_proxy);
    reveal(model_from_dev);
    reveal(model_from_route_delay);
    reveal(model_from_mtu_disc);
    reveal(model_from_ping_exit);
    reveal(model_from_down_pre);
    reveal(model_from_daemon);
    reveal(model_from_multihome);
    reveal(model_from_management_query_passwords);
    reveal(model_from_management_client_user);
}

/// Narrows the model of a directive of the commands `tcp-queue-limit`
/// through `client-cert-not-required` to its own group of the model definition.
#[verifier::rlimit(100)]
pub proof fn model_via_tcp_queue_limit(d: &ConfigDirective)
    requires
        (*d) is TcpQueueLimit || (*d) is TcpNodelay || (*d) is MaxClients || (*d) is MaxRoutesPerClient || (*d) is StaleRoutesCheck || (*d) is ConnectFreq || (*d) is LearnAddress || (*d) is AuthUserPassVerify || (*d) is AuthGenToken || (*d) is OptVerify || (*d) is AuthUserPassOptional || (*d) is ClientCertNotRequired,
    ensures
        d@ == model_from_tcp_queue_limit(*d),
{
    reveal(model_from_help);
    reveal(model_from_http_proxy);
    reveal(model_from_dev);
    reveal(model_from_route_delay);
    reveal(model_from_mtu_disc);
    reveal(model_from_ping_exit);
    reveal(model_from_down_pre);
    reveal(model_from_daemon);
    reveal(model_from_multihome);
    reveal(model_from_management_query_passwords);
    reveal(model_from_management_client_user);
    reveal(model_from_ifconfig_pool_linear);
}

/// Narrows the model of a directive of the commands `verify-client-cert`
/// through `server-poll-timeout` to its own group of the model definition.
#[verifier::rlimit(100)]
pub proof fn model_via_verify_client_cert(d: &ConfigDirective)
    requires
        (*d) is VerifyClientCert || (*d) is UsernameAsCommonName || (*d) is CompatNames || (*d) is NoNameRemapping || (*d) is PortShare || (*d) is Client || (*d) is Pull || (*d) is PullFilter || (*d) is AuthUserPass || (*d) is AuthRetry || (*d) is StaticChallenge || (*d) is ServerPollTimeout,
    ensures
        d@ == model_from_verify_client_cert(*d),
{
    reveal(model_from_help);
    reveal(model_from_http_proxy);
    reveal(model_from_dev);
    reveal(model_from_route_delay);
    reveal(model_from_mtu_disc);
    reveal(model_from_ping_exit);
    reveal(model_from_down_pre);
    reveal(model_from_daemon);
    reveal(model_from_multihome);
    reveal(model_from_management_query_passwords);
    reveal(model_from_management_client_user);
    reveal(model_from_ifconfig_pool_linear);
    reveal(model_from_tcp_queue_limit);
}

/// Narrows the model of a directive of the commands `connect-timeout`
/// through `engine` to its own group of the model definition.
#[verifier::rlimit(100)]
pub proof fn model_via_connect_timeout(d: &ConfigDirective)
    requires
        (*d) is ConnectTimeout || (*d) is ExplicitExitNotify || (*d) is AllowRecursiveRouting || (*d) is Secret || (*d) is KeyDirection || (*d) is Auth || (*d) is Cipher || (*d) is NcpCiphers || (*d) is NcpDisable || (*d) is Keysize || (*d) is Prng || (*d) is Engine,
    ensures
        d@ == model_from_connect_timeout(*d),
{
    reveal(model_from_help);
    reveal(model_from_http_proxy);
    reveal(model_from_dev);
    reveal(model_from_route_delay);
    reveal(model_from_mtu_disc);
    reveal(model_from_ping_exit);
    reveal(model_from_down_pre);
    reveal(model_from_daemon);
    reveal(model_from_multihome);
    reveal(model_from_management_query_passwords);
    reveal(model_from_management_client_user);
    reveal(model_from_ifconfig_pool_linear);
    reveal(model_from_tcp_queue_limit);
    reveal(model_from_verify_client_cert);
}

/// Narrows the model of a directive of the commands `no-replay`
/// through `capath` to its own group of the model definition.
#[verifier::rlimit(100)]
pub proof fn model_via_no_replay(d: &ConfigDirective)
    requires
        (*d) is NoReplay || (*d) is ReplayWindow || (*d) is MuteReplayWarnings || (*d) is ReplayPersist || (*d) is NoIv || (*d) is UsePredictionResistance || (*d) is TestCrypto || (*d) is TlsAuth || (*d) is TlsServer || (*d) is TlsClient || (*d) is Ca || (*d) is Capath,
    ensures
        d@ == model_from_no_replay(*d),
{
    reveal(model_from_help);
    reveal(model_from_http_proxy);
    reveal(model_from_dev);
    reveal(model_from_route_delay);
    reveal(model_from_mtu_disc);
    reveal(model_from_ping_exit);
    reveal(model_from_down_pre);
    reveal(model_from_daemon);
    reveal(model_from_multihome);
    reveal(model_from_management_query_passwords);
    reveal(model_from_management_client_user);
    reveal(model_from_ifconfig_pool_linear);
    reveal(model_from_tcp_queue_limit);
    reveal(model_from_verify_client_cert);
    reveal(model_from_connect_timeout);
}

/// Narrows the model of a directive of the commands `dh`
/// through `pkcs11-id-management` to its own group of the model definition.
#[verifier::rlimit(100)]
pub proof fn model_via_dh(d: &ConfigDirective)
    requires
        (*d) is Dh || (*d) is EcdhCurve || (*d) is Cert || (*d) is ExtraCerts || (*d) is Key || (*d) is TlsVersionMin || (*d) is TlsVersionMax || (*d) is Pkcs12 || (*d) is VerifyHash || (*d) is Pkcs11CertPrivate || (*d) is Pkcs11Id || (*d) is Pkcs11IdManagement,
    ensures
        d@ == model_from_dh(*d),
{
    reveal(model_from_help);
    reveal(model_from_http_proxy);
    reveal(model_from_dev);
    reveal(model_from_route_delay);
    reveal(model_from_mtu_disc);
    reveal(model_from_ping_exit);
    reveal(model_from_down_pre);
    reveal(model_from_daemon);
    reveal(model_from_multihome);
    reveal(model_from_management_query_passwords);
    reveal(model_from_management_client_user);
    reveal(model_from_ifconfig_pool_linear);
    reveal(model_from_tcp_queue_limit);
    reveal(model_from_verify_client_cert);
    reveal(model_from_connect_timeout);
    reveal(model_from_no_replay);
}

/// Narrows the model of a directive of the commands `pkcs11-pin-cache`
/// through `hand-window` to its own group of the model definition.
#[verifier::rlimit(100)]
pub proof fn model_via_pkcs11_pin_cache(d: &ConfigDirective)
    requires
        (*d) is Pkcs11PinCache || (*d) is Pkcs11ProtectedAuthentication || (*d) is Pkcs11Providers || (*d) is Pkcs11PrivateMode || (*d) is Cryptoapicert || (*d) is KeyMethod || (*d) is TlsCipher || (*d) is TlsTimeout || (*d) is RenegBytes || (*d) is RenegPkts || (*d) is RenegSec || (*d) is HandWindow,
    ensures
        d@ == model_from_pkcs11_pin_cache(*d),
{
    reveal(model_from_help);
    reveal(model_from_http_proxy);
    reveal(model_from_dev);
    reveal(model_from_route_delay);
    reveal(model_from_mtu_disc);
    reveal(model_from_ping_exit);
    reveal(model_from_down_pre);
    reveal(model_from_daemon);
    reveal(model_from_multihome);
    reveal(model_from_management_query_passwords);
    reveal(model_from_management_client_user);
    reveal(model_from_ifconfig_pool_linear);
    reveal(model_from_tcp_queue_limit);
    reveal(model_from_verify_client_cert);
    reveal(model_from_connect_timeout);
    reveal(model_from_no_replay);
    reveal(model_from_dh);
}

/// Narrows the model of a directive of the commands `tran-window`
/// through `x509-track` to its own group of the model definition.
#[verifier::rlimit(100)]
pub proof fn model_via_tran_window(d: &ConfigDirective)
    requires
        (*d) is TranWindow || (*d) is SingleSession || (*d) is TlsExit || (*d) is TlsCrypt || (*d) is Askpass || (*d) is AuthNocache || (*d) is AuthToken || (*d) is TlsVerify || (*d) is TlsExportCert || (*d) is X509UsernameField || (*d) is VerifyX509Name || (*d) is X509Track,
    ensures
        d@ == model_from_tran_window(*d),
{
    reveal(model_from_help);
    reveal(model_from_http_proxy);
    reveal(model_from_dev);
    reveal(model_from_route_delay);
    reveal(model_from_mtu_disc);
    reveal(model_from_ping_exit);
    reveal(model_from_down_pre);
    reveal(model_from_daemon);
    reveal(model_from_multihome);
    reveal(model_from_management_query_passwords);
    reveal(model_from_management_client_user);
    reveal(model_from_ifconfig_pool_linear);
    reveal(model_from_tcp_queue_limit);
    reveal(model_from_verify_client_cert);
    reveal(model_from_connect_timeout);
    reveal(model_from_no_replay);
    reveal(model_from_dh);
    reveal(model_from_pkcs11_pin_cache);
}

/// Narrows the model of a directive of the commands `ns-cert-type`
/// through `mktun` to its own group of the model definition.
#[verifier::rlimit(100)]
pub proof fn model_via_ns_cert_type(d: &ConfigDirective)
    requires
        (*d) is NsCertType || (*d) is RemoteCertKu || (*d) is RemoteCertEku || (*d) is RemoteCertTls || (*d) is CrlVerify || (*d) is ShowCiphers || (*d) is ShowDigests || (*d) is ShowTls || (*d) is ShowEngines || (*d) is ShowCurves || (*d) is Genkey || (*d) is Mktun,
    ensures
        d@ == model_from_ns_cert_type(*d),
{
    reveal(model_from_help);
    reveal(model_from_http_proxy);
    reveal(model_from_dev);
    reveal(model_from_route_delay);
    reveal(model_from_mtu_disc);
    reveal(model_from_ping_exit);
    reveal(model_from_down_pre);
    reveal(model_from_daemon);
    reveal(model_from_multihome);
    reveal(model_from_management_query_passwords);
    reveal(model_from_management_client_user);
    reveal(model_from_ifconfig_pool_linear);
    reveal(model_from_tcp_queue_limit);
    reveal(model_from_verify_client_cert);
    reveal(model_from_connect_timeout);
    reveal(model_from_no_replay);
    reveal(model_from_dh);
    reveal(model_from_pkcs11_pin_cache);
    reveal(model_from_tran_window);
}

/// Narrows the model of a directive of the commands `rmtun`
/// through `pause-exit` to its own group of the model definition.
#[verifier::rlimit(100)]
pub proof fn model_via_rmtun(d: &ConfigDirective)
    requires
        (*d) is Rmtun || (*d) is WinSys || (*d) is IpWin32 || (*d) is RouteMethod || (*d) is DhcpOption || (*d) is TapSleep || (*d) is ShowNetUp || (*d) is BlockOutsideDns || (*d) is DhcpRenew || (*d) is DhcpRelease || (*d) is RegisterDns || (*d) is PauseExit,
    ensures
        d@ == model_from_rmtun(*d),
{
    reveal(model_from_help);
    reveal(model_from_http_proxy);
    reveal(model_from_dev);
    reveal(model_from_route_delay);
    reveal(model_from_mtu_disc);
    reveal(model_from_ping_exit);
    reveal(model_from_down_pre);
    reveal(model_from_daemon);
    reveal(model_from_multihome);
    reveal(model_from_management_query_passwords);
    reveal(model_from_management_client_user);
    reveal(model_from_ifconfig_pool_linear);
    reveal(model_from_tcp_queue_limit);
    reveal(model_from_verify_client_cert);
    reveal(model_from_connect_timeout);
    reveal(model_from_no_replay);
    reveal(model_from_dh);
    reveal(model_from_pkcs11_pin_cache);
    reveal(model_from_tran_window);
    reveal(model_from_ns_cert_type);
}

/// Narrows the model of a directive of the commands `service`
/// through `ifconfig-ipv6-push` to its own group of the model definition.
#[verifier::rlimit(100)]
pub proof fn model_via_service(d: &ConfigDirective)
    requires
        (*d) is Service || (*d) is ShowAdapters || (*d) is AllowNonadmin || (*d) is ShowValidSubnets || (*d) is ShowNet || (*d) is ShowPkcs11Ids || (*d) is ShowGateway || (*d) is IfconfigIpv6 || (*d) is RouteIpv6 || (*d) is ServerIpv6 || (*d) is IfconfigIpv6Pool || (*d) is IfconfigIpv6Push,
    ensures
        d@ == model_from_service(*d),
{
    reveal(model_from_help);
    reveal(model_from_http_proxy);
    reveal(model_from_dev);
    reveal(model_from_route_delay);
    reveal(model_from_mtu_disc);
    reveal(model_from_ping_exit);
    reveal(model_from_down_pre);
    reveal(model_from_daemon);
    reveal(model_from_multihome);
    reveal(model_from_management_query_passwords);
    reveal(model_from_management_client_user);
    reveal(model_from_ifconfig_pool_linear);
    reveal(model_from_tcp_queue_limit);
    reveal(model_from_verify_client_cert);
    reveal(model_from_connect_timeout);
    reveal(model_from_no_replay);
    reveal(model_from_dh);
    reveal(model_from_pkcs11_pin_cache);
    reveal(model_from_tran_window);
    reveal(model_from_ns_cert_type);
    reveal(model_from_rmtun);
}

/// Narrows the model of a directive of the commands `iroute-ipv6`
/// through `server-bridge` to its own group of the model definition.
#[verifier::rlimit(100)]
pub proof fn model_via_iroute_ipv6(d: &ConfigDirective)
    requires
        (*d) is IrouteIpv6 || (*d) is ServerBridge,
    ensures
        d@ == model_from_iroute_ipv6(*d),
{
    reveal(model_from_help);
    reveal(model_from_http_proxy);
    reveal(model_from_dev);
    reveal(model_from_route_delay);
    reveal(model_from_mtu_disc);
    reveal(model_from_ping_exit);
    reveal(model_from_down_pre);
    reveal(model_from_daemon);
    reveal(model_from_multihome);
    reveal(model_from_management_query_passwords);
    reveal(model_from_management_client_user);
    reveal(model_from_ifconfig_pool_linear);
    reveal(model_from_tcp_queue_limit);
    reveal(model_from_verify_client_cert);
    reveal(model_from_connect_timeout);
    reveal(model_from_no_replay);
    reveal(model_from_dh);
    reveal(model_from_pkcs11_pin_cache);
    reveal(model_from_tran_window);
    reveal(model_from_ns_cert_type);
    reveal(model_from_rmtun);
    reveal(model_from_service);
}

/// Clones the directives of the commands `help` through `show-proxy-settings`.
#[verifier::rlimit(100)]
fn clone_from_help(d: &ConfigDirective) -> (r: ConfigDirective)
    ensures
        r@ == d@,
{
    match d {
        ConfigDirective::Help => {
            let c = ConfigDirective::Help;
            proof {
                model_via_help(d);
                model_via_help(&c);
                reveal(model_from_help);
                assert(c@ =~~= d@);
            }
            c
        },
        ConfigDirective::Config { file } => {
            let c = ConfigDirective::Config { file: file.clone() };
            proof {
                model_via_help(d);
                model_via_help(&c);
                reveal(model_from_help);
                assert(c@ =~~= d@);
            }
            c
        },
        ConfigDirective::Mode { m } => {
            let c = ConfigDirective::Mode { m: m.clone() };
            proof {
                model_via_help(d);
                model_via_help(&c);
                reveal(model_from_help);
                assert(c@ =~~= d@);
            }
            c
        },
        ConfigDirective::Local { host } => {
            let c = ConfigDirective::Local { host: host.clone() };
            proof {
                model_via_help(d);
                model_via_help(&c);
                reveal(model_from_help);
                assert(c@ =~~= d@);
            }
            c
        },
        ConfigDirective::Remote { host, port, proto } => {
            let c = ConfigDirective::Remote {
                host: host.clone(),
                port: clone_opt(port),
                proto: clone_opt(proto),
            };
            proof {
                model_via_help(d);
                model_via_help(&c);
                reveal(model_from_help);
                assert(c@ =~~= d@);
            }
            c
        },
        ConfigDirective::RemoteRandomHostname => {
            let c = ConfigDirective::RemoteRandomHostname;
            proof {
                model_via_help(d);
                model_via_help(&c);
                reveal(model_from_help);
                assert(c@ =~~= d@);
            }
            c
        },
        ConfigDirective::ProtoForce { p } => {
            let c = ConfigDirective::ProtoForce { p: p.clone() };
            proof {
                model_via_help(d);
                model_via_help(&c);
                reveal(model_from_help);
                assert(c@ =~~= d@);
            }
            c
        },
        ConfigDirective::RemoteRandom => {
            let c = ConfigDirective::RemoteRandom;
            proof {
                model_via_help(d);
                model_via_help(&c);
                reveal(model_from_help);
                assert(c@ =~~= d@);
            }
            c
        },
        ConfigDirective::Proto { p } => {
            let c = ConfigDirective::Proto { p: p.clone() };
            proof {
                model_via_help(d);
                model_via_help(&c);
                reveal(model_from_help);
                assert(c@ =~~= d@);
            }
            c
        },
        ConfigDirective::ConnectRetry { n, max } => {
            let c = ConfigDirective::ConnectRetry { n: n.clone(), max: clone_opt(max) };
            proof {
                model_via_help(d);
                model_via_help(&c);
                reveal(model_from_help);
                assert(c@ =~~= d@);
            }
            c
        },
        ConfigDirective::ConnectRetryMax { n } => {
            let c = ConfigDirective::ConnectRetryMax { n: n.clone() };
            proof {
                model_via_help(d);
                model_via_help(&c);
                reveal(model_from_help);
                assert(c@ =~~= d@);
            }
            c
        },
        ConfigDirective::ShowProxySettings => {
            let c = ConfigDirective::ShowProxySettings;
            proof {
                model_via_help(d);
                model_via_help(&c);
                reveal(model_from_help);
                assert(c@ =~~= d@);
            }
            c
        },
        _ => clone_from_http_proxy(d),
    }
}

/// The directives cloned by the helpers before `clone_from_http_proxy`.
spec fn cloned_before_http_proxy(d: &ConfigDirective) -> bool {
    ||| (*d) is Help
    ||| (*d) is Config
    ||| (*d) is Mode
    ||| (*d) is Local
    ||| (*d) is Remote
    ||| (*d) is RemoteRandomHostname
    ||| (*d) is ProtoForce
    ||| (*d) is RemoteRandom
    ||| (*d) is Proto
    ||| (*d) is ConnectRetry
    ||| (*d) is ConnectRetryMax
    ||| (*d) is ShowProxySettings
}

/// Clones the directives of the commands `http-proxy` through `nobind`.
#[verifier::rlimit(100)]
fn clone_from_http_proxy(d: &ConfigDirective) -> (r: ConfigDirective)
    requires
        !cloned_before_http_proxy(d),
    ensures
        r@ == d@,
{
    match d {
        ConfigDirective::HttpProxy { server, port, authfile_or_auto_or_auto_nct, auth_method } => {
            let c = ConfigDirective::HttpProxy {
                server: server.clone(),
                port: port.clone(),
                authfile_or_auto_or_auto_nct: clone_opt(authfile_or_auto_or_auto_nct),
                auth_method: clone_opt(auth_method),
            };
            proof {
                model_via_http_proxy(d);
                model_via_http_proxy(&c);
                reveal(model_from_http_proxy);
                assert(c@ =~~= d@);
            }
            c
        },
        ConfigDirective::HttpProxyOption { http_proxy_option_type, parm } => {
            let c = ConfigDirective::HttpProxyOption {
                http_proxy_option_type: http_proxy_option_type.clone(),
                parm: clone_opt(parm),
            };
            proof {
                model_via_http_proxy(d);
                model_via_http_proxy(&c);
                reveal(model_from_http_proxy);
                assert(c@ =~~= d@);
            }
            c
        },
        ConfigDirective::HttpProxyUserPass { file } => {
            let c = ConfigDirective::HttpProxyUserPass { file: file.clone() };
            proof {
                model_via_http_proxy(d);
                model_via_http_proxy(&c);
                reveal(model_from_http_proxy);
                assert(c@ =~~= d@);
            }
            c
        },
        ConfigDirective::SocksProxy { server, port, authfile } => {
            let c = ConfigDirective::SocksProxy {
                server: server.clone(),
                port: clone_opt(port),
                authfile: clone_opt(authfile),
            };
            proof {
                model_via_http_proxy(d);
                model_via_http_proxy(&c);
                reveal(model_from_http_proxy);
                assert(c@ =~~= d@);
            }
            c
        },
        ConfigDirective::ResolvRetry { n } => {
            let c = ConfigDirective::ResolvRetry { n: n.clone() };
            proof {
                model_via_http_proxy(d);
                model_via_http_proxy(&c);
                reveal(model_from_http_proxy);
                assert(c@ =~~= d@);
            }
            c
        },
        ConfigDirective::Float => {
            let c = ConfigDirective::Float;
            proof {
                model_via_http_proxy(d);
                model_via_http_proxy(&c);
                reveal(model_from_http_proxy);
                assert(c@ =~~= d@);
            }
            c
        },
        ConfigDirective::Ipchange { cmd } => {
            let c = ConfigDirective::Ipchange { cmd: cmd.clone() };
            proof {
                model_via_http_proxy(d);
                model_via_http_proxy(&c);
                reveal(model_from_http_proxy);
                assert(c@ =~~= d@);
            }
            c
        },
        ConfigDirective::Port { port } => {
            let c = ConfigDirective::Port { port: port.clone() };
            proof {
                model_via_http_proxy(d);
                model_via_http_proxy(&c);
                reveal(model_from_http_proxy);
                assert(c@ =~~= d@);
            }
            c
        },
        ConfigDirective::Lport { port } => {
            let c = ConfigDirective::Lport { port: port.clone() };
            proof {
                model_via_http_proxy(d);
                model_via_http_proxy(&c);
                reveal(model_from_http_proxy);
                assert(c@ =~~= d@);
            }
            c
        },
        ConfigDirective::Rport { port } => {
            let c = ConfigDirective::Rport { port: port.clone() };
            proof {
                model_via_http_proxy(d);
                model_via_http_proxy(&c);
                reveal(model_from_http_proxy);
                assert(c@ =~~= d@);
            }
            c
        },
        ConfigDirective::Bind { ipv6only } => {
            let c = ConfigDirective::Bind { ipv6only: clone_opt(ipv6only) };
            proof {
                model_via_http_proxy(d);
                model_via_http_proxy(&c);
                reveal(model_from_http_proxy);
                assert(c@ =~~= d@);
            }
            c
        },
        ConfigDirective::Nobind => {
            let c = ConfigDirective::Nobind;
            proof {
                model_via_http_proxy(d);
                model_via_http_proxy(&c);
                reveal(model_from_http_proxy);
                assert(c@ =~~= d@);
            }
            c
        },
        _ => clone_from_dev(d),
    }
}

/// The directives cloned by the helpers before `clone_from_dev`.
spec fn cloned_before_dev(d: &ConfigDirective) -> bool {
    ||| cloned_before_http_proxy(d)
    ||| (*d) is HttpProxy
    ||| (*d) is HttpProxyOption
    ||| (*d) is HttpProxyUserPass
    ||| (*d) is SocksProxy
    ||| (*d) is ResolvRetry
    ||| (*d) is Float
    ||| (*d) is Ipchange
    ||| (*d) is Port
    ||| (*d) is Lport
    ||| (*d) is Rport
    ||| (*d) is Bind
    ||| (*d) is Nobind
}

/// Clones the directives of the commands `dev` through `route-metric`.
#[verifier::rlimit(100)]
fn clone_from_dev(d: &ConfigDirective) -> (r: ConfigDirective)
    requires
        !cloned_before_dev(d),
    ensures
        r@ == d@,
{
    match d {
        ConfigDirective::Dev { devarg } => {
            let c = ConfigDirective::Dev { devarg: devarg.clone() };
            proof {
                model_via_dev(d);
                model_via_dev(&c);
                reveal(model_from_dev);
                assert(c@ =~~= d@);
            }
            c
        },
        ConfigDirective::DevType { device_type } => {
            let c = ConfigDirective::DevType { device_type: device_type.clone() };
            proof {
                model_via_dev(d);
                model_via_dev(&c);
                reveal(model_from_dev);
                assert(c@ =~~= d@);
            }
            c
        },
        ConfigDirective::Topology { mode } => {
            let c = ConfigDirective::Topology { mode: mode.clone() };
            proof {
                model_via_dev(d);
                model_via_dev(&c);
                reveal(model_from_dev);
                assert(c@ =~~= d@);
            }
            c
        },
        ConfigDirective::DevNode { node } => {
            let c = ConfigDirective::DevNode { node: node.clone() };
            proof {
                model_via_dev(d);
                model_via_dev(&c);
                reveal(model_from_dev);
                assert(c@ =~~= d@);
            }
            c
        },
        ConfigDirective::Lladdr { address } => {
            let c = ConfigDirective::Lladdr { address: address.clone() };
            proof {
                model_via_dev(d);
                model_via_dev(&c);
                reveal(model_from_dev);
                assert(c@ =~~= d@);
            }
            c
        },
        ConfigDirective::Iproute { cmd } => {
            let c = ConfigDirective::Iproute { cmd: cmd.clone() };
            proof {
                model_via_dev(d);
                model_via_dev(&c);
                reveal(model_from_dev);
                assert(c@ =~~= d@);
            }
            c
        },
        ConfigDirective::Ifconfig { l, rn } => {
            let c = ConfigDirective::Ifconfig { l: l.clone(), rn: rn.clone() };
            proof {
                model_via_dev(d);
                model_via_dev(&c);
                reveal(model_from_dev);
                assert(c@ =~~= d@);
            }
            c
        },
        ConfigDirective::IfconfigNoexec => {
            let c = ConfigDirective::IfconfigNoexec;
            proof {
                model_via_dev(d);
                model_via_dev(&c);
                reveal(model_from_dev);
                assert(c@ =~~= d@);
            }
            c
        },
        ConfigDirective::IfconfigNowarn => {
            let c = ConfigDirective::IfconfigNowarn;
            proof {
                model_via_dev(d);
                model_via_dev(&c);
                reveal(model_from_dev);
                assert(c@ =~~= d@);
            }
            c
        },
        ConfigDirective::Route { network_or_ip, netmask, gateway, metric } => {
            let c = ConfigDirective::Route {
                network_or_ip: network_or_ip.clone(),
                netmask: clone_opt(netmask),
                gateway: clone_opt(gateway),
                metric: clone_opt(metric),
            };
            proof {
                model_via_dev(d);
                model_via_dev(&c);
                reveal(model_from_dev);
                assert(c@ =~~= d@);
            }
            c
        },
        ConfigDirective::RouteGateway { gw_or_dhcp } => {
            let c = ConfigDirective::RouteGateway { gw_or_dhcp: gw_or_dhcp.clone() };
            proof {
                model_via_dev(d);
                model_via_dev(&c);
                reveal(model_from_dev);
                assert(c@ =~~= d@);
            }
            c
        },
        ConfigDirective::RouteMetric { m } => {
            let c = ConfigDirective::RouteMetric { m: m.clone() };
            proof {
                model_via_dev(d);
                model_via_dev(&c);
                reveal(model_from_dev);
                assert(c@ =~~= d@);
            }
            c
        },
        _ => clone_from_route_delay(d),
    }
}

/// The directives cloned by the helpers before `clone_from_route_delay`.
spec fn cloned_before_route_delay(d: &ConfigDirective) -> bool {
    ||| cloned_before_dev(d)
    ||| (*d) is Dev
    ||| (*d) is DevType
    ||| (*d) is Topology
    ||| (*d) is DevNode
    ||| (*d) is Lladdr
    ||| (*d) is Iproute
    ||| (*d) is Ifconfig
    ||| (*d) is IfconfigNoexec
    ||| (*d) is IfconfigNowarn
    ||| (*d) is Route
    ||| (*d) is RouteGateway
    ||| (*d) is RouteMetric
}

/// Clones the directives of the commands `route-delay` through `tun-mtu-extra`.
#[verifier::rlimit(100)]
fn clone_from_route_delay(d: &ConfigDirective) -> (r: ConfigDirective)
    requires
        !cloned_before_route_delay(d),
    ensures
        r@ == d@,
{
    match d {
        ConfigDirective::RouteDelay { n, w } => {
            let c = ConfigDirective::RouteDelay { n: clone_opt(n), w: clone_opt(w) };
            proof {
                model_via_route_delay(d);
                model_via_route_delay(&c);
                reveal(model_from_route_delay);
                assert(c@ =~~= d@);
            }
            c
        },
        ConfigDirective::RouteUp { cmd } => {
            let c = ConfigDirective::RouteUp { cmd: cmd.clone() };
            proof {
                model_via_route_delay(d);
                model_via_route_delay(&c);
                reveal(model_from_route_delay);
                assert(c@ =~~= d@);
            }
            c
        },
        ConfigDirective::RoutePreDown { cmd } => {
            let c = ConfigDirective::RoutePreDown { cmd: cmd.clone() };
            proof {
                model_via_route_delay(d);
                model_via_route_delay(&c);
                reveal(model_from_route_delay);
                assert(c@ =~~= d@);
            }
            c
        },
        ConfigDirective::RouteNoexec => {
            let c = ConfigDirective::RouteNoexec;
            proof {
                model_via_route_delay(d);
                model_via_route_delay(&c);
                reveal(model_from_route_delay);
                assert(c@ =~~= d@);
            }
            c
        },
        ConfigDirective::RouteNopull => {
            let c = ConfigDirective::RouteNopull;
            proof {
                model_via_route_delay(d);
                model_via_route_delay(&c);
                reveal(model_from_route_delay);
                assert(c@ =~~= d@);
            }
            c
        },
        ConfigDirective::AllowPullFqdn => {
            let c = ConfigDirective::AllowPullFqdn;
            proof {
                model_via_route_delay(d);
                model_via_route_delay(&c);
                reveal(model_from_route_delay);
                assert(c@ =~~= d@);
            }
            c
        },
        ConfigDirective::ClientNat { snat_or_dnat, network, netmask, alias } => {
            let c = ConfigDirective::ClientNat {
                snat_or_dnat: snat_or_dnat.clone(),
                network: network.clone(),
                netmask: netmask.clone(),
                alias: alias.clone(),
            };
            proof {
                model_via_route_delay(d);
                model_via_route_delay(&c);
                reveal(model_from_route_delay);
                assert(c@ =~~= d@);
            }
            c
        },
        ConfigDirective::RedirectGateway { flags } => {
            let c = ConfigDirective::RedirectGateway { flags: clone_vec(flags) };
            proof {
                model_via_route_delay(d);
                model_via_route_delay(&c);
                reveal(model_from_route_delay);
                assert(c@ =~~= d@);
            }
            c
        },
        ConfigDirective::LinkMtu { n } => {
            let c = ConfigDirective::LinkMtu { n: n.clone() };
            proof {
                model_via_route_delay(d);
                model_via_route_delay(&c);
                reveal(model_from_route_delay);
                assert(c@ =~~= d@);
            }
            c
        },
        ConfigDirective::RedirectPrivate { flags } => {
            let c = ConfigDirective::RedirectPrivate { flags: clone_opt_vec(flags) };
            proof {
                model_via_route_delay(d);
                model_via_route_delay(&c);
                reveal(model_from_route_delay);
                assert(c@ =~~= d@);
            }
            c
        },
        ConfigDirective::TunMtu { n } => {
            let c = ConfigDirective::TunMtu { n: n.clone() };
            proof {
                model_via_route_delay(d);
                model_via_route_delay(&c);
                reveal(model_from_route_delay);
                assert(c@ =~~= d@);
            }
            c
        },
        ConfigDirective::TunMtuExtra { n } => {
            let c = ConfigDirective::TunMtuExtra { n: n.clone() };
            proof {
                model_via_route_delay(d);
                model_via_route_delay(&c);
                reveal(model_from_route_delay);
                assert(c@ =~~= d@);
            }
            c
        },
        _ => clone_from_mtu_disc(d),
    }
}

/// The directives cloned by the helpers before `clone_from_mtu_disc`.
spec fn cloned_before_mtu_disc(d: &ConfigDirective) -> bool {
    ||| cloned_before_route_delay(d)
    ||| (*d) is RouteDelay
    ||| (*d) is RouteUp
    ||| (*d) is RoutePreDown
    ||| (*d) is RouteNoexec
    ||| (*d) is RouteNopull
    ||| (*d) is AllowPullFqdn
    ||| (*d) is ClientNat
    ||| (*d) is RedirectGateway
    ||| (*d) is LinkMtu
    ||| (*d) is RedirectPrivate
    ||| (*d) is TunMtu
    ||| (*d) is TunMtuExtra
}

/// Clones the directives of the commands `mtu-disc` through `ping`.
#[verifier::rlimit(100)]
fn clone_from_mtu_disc(d: &ConfigDirective) -> (r: ConfigDirective)
    requires
        !cloned_before_mtu_disc(d),
    ensures
        r@ == d@,
{
    match d {
        ConfigDirective::MtuDisc { mtu_disc_type } => {
            let c = ConfigDirective::MtuDisc { mtu_disc_type: mtu_disc_type.clone() };
            proof {
                model_via_mtu_disc(d);
                model_via_mtu_disc(&c);
                reveal(model_from_mtu_disc);
                assert(c@ =~~= d@);
            }
            c
        },
        ConfigDirective::MtuTest => {
            let c = ConfigDirective::MtuTest;
            proof {
                model_via_mtu_disc(d);
                model_via_mtu_disc(&c);
                reveal(model_from_mtu_disc);
                assert(c@ =~~= d@);
            }
            c
        },
        ConfigDirective::Fragment { max } => {
            let c = ConfigDirective::Fragment { max: max.clone() };
            proof {
                model_via_mtu_disc(d);
                model_via_mtu_disc(&c);
                reveal(model_from_mtu_disc);
                assert(c@ =~~= d@);
            }
            c
        },
        ConfigDirective::Mssfix { max } => {
            let c = ConfigDirective::Mssfix { max: max.clone() };
            proof {
                model_via_mtu_disc(d);
                model_via_mtu_disc(&c);
                reveal(model_from_mtu_disc);
                assert(c@ =~~= d@);
            }
            c
        },
        ConfigDirective::Sndbuf { size } => {
            let c = ConfigDirective::Sndbuf { size: size.clone() };
            proof {
                model_via_mtu_disc(d);
                model_via_mtu_disc(&c);
                reveal(model_from_mtu_disc);
                assert(c@ =~~= d@);
            }
            c
        },
        ConfigDirective::Rcvbuf { size } => {
            let c = ConfigDirective::Rcvbuf { size: size.clone() };
            proof {
                model_via_mtu_disc(d);
                model_via_mtu_disc(&c);
                reveal(model_from_mtu_disc);
                assert(c@ =~~= d@);
            }
            c
        },
        ConfigDirective::Mark { value } => {
            let c = ConfigDirective::Mark { value: value.clone() };
            proof {
                model_via_mtu_disc(d);
                model_via_mtu_disc(&c);
                reveal(model_from_mtu_disc);
                assert(c@ =~~= d@);
            }
            c
        },
        ConfigDirective::SocketFlags { flags } => {
            let c = ConfigDirective::SocketFlags { flags: clone_vec(flags) };
            proof {
                model_via_mtu_disc(d);
                model_via_mtu_disc(&c);
                reveal(model_from_mtu_disc);
                assert(c@ =~~= d@);
            }
            c
        },
        ConfigDirective::Txqueuelen { n } => {
            let c = ConfigDirective::Txqueuelen { n: n.clone() };
            proof {
                model_via_mtu_disc(d);
                model_via_mtu_disc(&c);
                reveal(model_from_mtu_disc);
                assert(c@ =~~= d@);
            }
            c
        },
        ConfigDirective::Shaper { n } => {
            let c = ConfigDirective::Shaper { n: n.clone() };
            proof {
                model_via_mtu_disc(d);
                model_via_mtu_disc(&c);
                reveal(model_from_mtu_disc);
                assert(c@ =~~= d@);
            }
            c
        },
        ConfigDirective::Inactive { n, bytes } => {
            let c = ConfigDirective::Inactive { n: n.clone(), bytes: clone_opt(bytes) };
            proof {
                model_via_mtu_disc(d);
                model_via_mtu_disc(&c);
                reveal(model_from_mtu_disc);
                assert(c@ =~~= d@);
            }
            c
        },
        ConfigDirective::Ping { n } => {
            let c = ConfigDirective::Ping { n: n.clone() };
            proof {
                model_via_mtu_disc(d);
                model_via_mtu_disc(&c);
                reveal(model_from_mtu_disc);
                assert(c@ =~~= d@);
            }
            c
        },
        _ => clone_from_ping_exit(d),
    }
}

/// The directives cloned by the helpers before `clone_from_ping_exit`.
spec fn cloned_before_ping_exit(d: &ConfigDirective) -> bool {
    ||| cloned_before_mtu_disc(d)
    ||| (*d) is MtuDisc
    ||| (*d) is MtuTest
    ||| (*d) is Fragment
    ||| (*d) is Mssfix
    ||| (*d) is Sndbuf
    ||| (*d) is Rcvbuf
    ||| (*d) is Mark
    ||| (*d) is SocketFlags
    ||| (*d) is Txqueuelen
    ||| (*d) is Shaper
    ||| (*d) is Inactive
    ||| (*d) is Ping
}

/// Clones the directives of the commands `ping-exit` through `down`.
#[verifier::rlimit(100)]
fn clone_from_ping_exit(d: &ConfigDirective) -> (r: ConfigDirective)
    requires
        !cloned_before_ping_exit(d),
    ensures
        r@ == d@,
{
    match d {
        ConfigDirective::PingExit { n } => {
            let c = ConfigDirective::PingExit { n: n.clone() };
            proof {
                model_via_ping_exit(d);
                model_via_ping_exit(&c);
                reveal(model_from_ping_exit);
                assert(c@ =~~= d@);
            }
            c
        },
        ConfigDirective::PingRestart { n } => {
            let c = ConfigDirective::PingRestart { n: n.clone() };
            proof {
                model_via_ping_exit(d);
                model_via_ping_exit(&c);
                reveal(model_from_ping_exit);
                assert(c@ =~~= d@);
            }
            c
        },
        ConfigDirective::Keepalive { interval, timeout } => {
            let c = ConfigDirective::Keepalive {
                interval: interval.clone(),
                timeout: timeout.clone(),
            };
            proof {
                model_via_ping_exit(d);
                model_via_ping_exit(&c);
                reveal(model_from_ping_exit);
                assert(c@ =~~= d@);
            }
            c
        },
        ConfigDirective::PingTimerRem => {
            let c = ConfigDirective::PingTimerRem;
            proof {
                model_via_ping_exit(d);
                model_via_ping_exit(&c);
                reveal(model_from_ping_exit);
                assert(c@ =~~= d@);
            }
            c
        },
        ConfigDirective::PersistTun => {
            let c = ConfigDirective::PersistTun;
            proof {
                model_via_ping_exit(d);
                model_via_ping_exit(&c);
                reveal(model_from_ping_exit);
                assert(c@ =~~= d@);
            }
            c
        },
        ConfigDirective::PersistKey => {
            let c = ConfigDirective::PersistKey;
            proof {
                model_via_ping_exit(d);
                model_via_ping_exit(&c);
                reveal(model_from_ping_exit);
                assert(c@ =~~= d@);
            }
            c
        },
        ConfigDirective::PersistLocalIp => {
            let c = ConfigDirective::PersistLocalIp;
            proof {
                model_via_ping_exit(d);
                model_via_ping_exit(&c);
                reveal(model_from_ping_exit);
                assert(c@ =~~= d@);
            }
            c
        },
        ConfigDirective::PersistRemoteIp => {
            let c = ConfigDirective::PersistRemoteIp;
            proof {
                model_via_ping_exit(d);
                model_via_ping_exit(&c);
                reveal(model_from_ping_exit);
                assert(c@ =~~= d@);
            }
            c
        },
        ConfigDirective::Mlock => {
            let c = ConfigDirective::Mlock;
            proof {
                model_via_ping_exit(d);
                model_via_ping_exit(&c);
                reveal(model_from_ping_exit);
                assert(c@ =~~= d@);
            }
            c
        },
        ConfigDirective::Up { cmd } => {
            let c = ConfigDirective::Up { cmd: cmd.clone() };
            proof {
                model_via_ping_exit(d);
                model_via_ping_exit(&c);
                reveal(model_from_ping_exit);
                assert(c@ =~~= d@);
            }
            c
        },
        ConfigDirective::UpDelay => {
            let c = ConfigDirective::UpDelay;
            proof {
                model_via_ping_exit(d);
                model_via_ping_exit(&c);
                reveal(model_from_ping_exit);
                assert(c@ =~~= d@);
            }
            c
        },
        ConfigDirective::Down { cmd } => {
            let c = ConfigDirective::Down { cmd: cmd.clone() };
            proof {
                model_via_ping_exit(d);
                model_via_ping_exit(&c);
                reveal(model_from_ping_exit);
                assert(c@ =~~= d@);
            }
            c
        },
        _ => clone_from_down_pre(d),
    }
}

/// The directives cloned by the helpers before `clone_from_down_pre`.
spec fn cloned_before_down_pre(d: &ConfigDirective) -> bool {
    ||| cloned_before_ping_exit(d)
    ||| (*d) is PingExit
    ||| (*d) is PingRestart
    ||| (*d) is Keepalive
    ||| (*d) is PingTimerRem
    ||| (*d) is PersistTun
    ||| (*d) is PersistKey
    ||| (*d) is PersistLocalIp
    ||| (*d) is PersistRemoteIp
    ||| (*d) is Mlock
    ||| (*d) is Up
    ||| (*d) is UpDelay
    ||| (*d) is Down
}

/// Clones the directives of the commands `down-pre` through `setcon`.
#[verifier::rlimit(100)]
fn clone_from_down_pre(d: &ConfigDirective) -> (r: ConfigDirective)
    requires
        !cloned_before_down_pre(d),
    ensures
        r@ == d@,
{
    match d {
        ConfigDirective::DownPre => {
            let c = ConfigDirective::DownPre;
            proof {
                model_via_down_pre(d);
                model_via_down_pre(&c);
                reveal(model_from_down_pre);
                assert(c@ =~~= d@);
            }
            c
        },
        ConfigDirective::UpRestart => {
            let c = ConfigDirective::UpRestart;
            proof {
                model_via_down_pre(d);
                model_via_down_pre(&c);
                reveal(model_from_down_pre);
                assert(c@ =~~= d@);
            }
            c
        },
        ConfigDirective::Setenv { name, value } => {
            let c = ConfigDirective::Setenv { name: name.clone(), value: value.clone() };
            proof {
                model_via_down_pre(d);
                model_via_down_pre(&c);
                reveal(model_from_down_pre);
                assert(c@ =~~= d@);
            }
            c
        },
        ConfigDirective::SetenvSafe { name, value } => {
            let c = ConfigDirective::SetenvSafe { name: name.clone(), value: value.clone() };
            proof {
                model_via_down_pre(d);
                model_via_down_pre(&c);
                reveal(model_from_down_pre);
                assert(c@ =~~= d@);
            }
            c
        },
        ConfigDirective::IgnoreUnknownOption { opts } => {
            let c = ConfigDirective::IgnoreUnknownOption { opts: clone_vec(opts) };
            proof {
                model_via_down_pre(d);
                model_via_down_pre(&c);
                reveal(model_from_down_pre);
                assert(c@ =~~= d@);
            }
            c
        },
        ConfigDirective::ScriptSecurity { level } => {
            let c = ConfigDirective::ScriptSecurity { level: level.clone() };
            proof {
                model_via_down_pre(d);
                model_via_down_pre(&c);
                reveal(model_from_down_pre);
                assert(c@ =~~= d@);
            }
            c
        },
        ConfigDirective::DisableOcc => {
            let c = ConfigDirective::DisableOcc;
            proof {
                model_via_down_pre(d);
                model_via_down_pre(&c);
                reveal(model_from_down_pre);
                assert(c@ =~~= d@);
            }
            c
        },
        ConfigDirective::User { user } => {
            let c = ConfigDirective::User { user: user.clone() };
            proof {
                model_via_down_pre(d);
                model_via_down_pre(&c);
                reveal(model_from_down_pre);
                assert(c@ =~~= d@);
            }
            c
        },
        ConfigDirective::Group { group } => {
            let c = ConfigDirective::Group { group: group.clone() };
            proof {
                model_via_down_pre(d);
                model_via_down_pre(&c);
                reveal(model_from_down_pre);
                assert(c@ =~~= d@);
            }
            c
        },
        ConfigDirective::Cd { dir } => {
            let c = ConfigDirective::Cd { dir: dir.clone() };
            proof {
                model_via_down_pre(d);
                model_via_down_pre(&c);
                reveal(model_from_down_pre);
                assert(c@ =~~= d@);
            }
            c
        },
        ConfigDirective::Chroot { dir } => {
            let c = ConfigDirective::Chroot { dir: dir.clone() };
            proof {
                model_via_down_pre(d);
                model_via_down_pre(&c);
                reveal(model_from_down_pre);
                assert(c@ =~~= d@);
            }
            c
        },
        ConfigDirective::Setcon { context } => {
            let c = ConfigDirective::Setcon { context: context.clone() };
            proof {
                model_via_down_pre(d);
                model_via_down_pre(&c);
                reveal(model_from_down_pre);
                assert(c@ =~~= d@);
            }
            c
        },
        _ => clone_from_daemon(d),
    }
}

/// The directives cloned by the helpers before `clone_from_daemon`.
spec fn cloned_before_daemon(d: &ConfigDirective) -> bool {
    ||| cloned_before_down_pre(d)
    ||| (*d) is DownPre
    ||| (*d) is UpRestart
    ||| (*d) is Setenv
    ||| (*d) is SetenvSafe
    ||| (*d) is IgnoreUnknownOption
    ||| (*d) is ScriptSecurity
    ||| (*d) is DisableOcc
    ||| (*d) is User
    ||| (*d) is Group
    ||| (*d) is Cd
    ||| (*d) is Chroot
    ||| (*d) is Setcon
}

/// Clones the directives of the commands `daemon` through `fast-io`.
#[verifier::rlimit(100)]
fn clone_from_daemon(d: &ConfigDirective) -> (r: ConfigDirective)
    requires
        !cloned_before_daemon(d),
    ensures
        r@ == d@,
{
    match d {
        ConfigDirective::Daemon { progname } => {
            let c = ConfigDirective::Daemon { progname: clone_opt(progname) };
            proof {
                model_via_daemon(d);
                model_via_daemon(&c);
                reveal(model_from_daemon);
                assert(c@ =~~= d@);
            }
            c
        },
        ConfigDirective::Syslog { progname } => {
            let c = ConfigDirective::Syslog { progname: clone_opt(progname) };
            proof {
                model_via_daemon(d);
                model_via_daemon(&c);
                reveal(model_from_daemon);
                assert(c@ =~~= d@);
            }
            c
        },
        ConfigDirective::ErrorsToStderr => {
            let c = ConfigDirective::ErrorsToStderr;
            proof {
                model_via_daemon(d);
                model_via_daemon(&c);
                reveal(model_from_daemon);
                assert(c@ =~~= d@);
            }
            c
        },
        ConfigDirective::Passtos => {
            let c = ConfigDirective::Passtos;
            proof {
                model_via_daemon(d);
                model_via_daemon(&c);
                reveal(model_from_daemon);
                assert(c@ =~~= d@);
            }
            c
        },
        ConfigDirective::Inetd { wait_or_nowait, progname } => {
            let c = ConfigDirective::Inetd {
                wait_or_nowait: clone_opt(wait_or_nowait),
                progname: clone_opt(progname),
            };
            proof {
                model_via_daemon(d);
                model_via_daemon(&c);
                reveal(model_from_daemon);
                assert(c@ =~~= d@);
            }
            c
        },
        ConfigDirective::Log { file } => {
            let c = ConfigDirective::Log { file: file.clone() };
            proof {
                model_via_daemon(d);
                model_via_daemon(&c);
                reveal(model_from_daemon);
                assert(c@ =~~= d@);
            }
            c
        },
        ConfigDirective::LogAppend { file } => {
            let c = ConfigDirective::LogAppend { file: file.clone() };
            proof {
                model_via_daemon(d);
                model_via_daemon(&c);
                reveal(model_from_daemon);
                assert(c@ =~~= d@);
            }
            c
        },
        ConfigDirective::SuppressTimestamps => {
            let c = ConfigDirective::SuppressTimestamps;
            proof {
                model_via_daemon(d);
                model_via_daemon(&c);
                reveal(model_from_daemon);
                assert(c@ =~~= d@);
            }
            c
        },
        ConfigDirective::MachineReadableOutput => {
            let c = ConfigDirective::MachineReadableOutput;
            proof {
                model_via_daemon(d);
                model_via_daemon(&c);
                reveal(model_from_daemon);
                assert(c@ =~~= d@);
            }
            c
        },
        ConfigDirective::Writepid { file } => {
            let c = ConfigDirective::Writepid { file: file.clone() };
            proof {
                model_via_daemon(d);
                model_via_daemon(&c);
                reveal(model_from_daemon);
                assert(c@ =~~= d@);
            }
            c
        },
        ConfigDirective::Nice { n } => {
            let c = ConfigDirective::Nice { n: n.clone() };
            proof {
                model_via_daemon(d);
                model_via_daemon(&c);
                reveal(model_from_daemon);
                assert(c@ =~~= d@);
            }
            c
        },
        ConfigDirective::FastIo => {
            let c = ConfigDirective::FastIo;
            proof {
                model_via_daemon(d);
                model_via_daemon(&c);
                reveal(model_from_daemon);
                assert(c@ =~~= d@);
            }
            c
        },
        _ => clone_from_multihome(d),
    }
}

/// The directives cloned by the helpers before `clone_from_multihome`.
spec fn cloned_before_multihome(d: &ConfigDirective) -> bool {
    ||| cloned_before_daemon(d)
    ||| (*d) is Daemon
    ||| (*d) is Syslog
    ||| (*d) is ErrorsToStderr
    ||| (*d) is Passtos
    ||| (*d) is Inetd
    ||| (*d) is Log
    ||| (*d) is LogAppend
    ||| (*d) is SuppressTimestamps
    ||| (*d) is MachineReadableOutput
    ||| (*d) is Writepid
    ||| (*d) is Nice
    ||| (*d) is FastIo
}

/// Clones the directives of the commands `multihome` through `management-client`.
#[verifier::rlimit(100)]
fn clone_from_multihome(d: &ConfigDirective) -> (r: ConfigDirective)
    requires
        !cloned_before_multihome(d),
    ensures
        r@ == d@,
{
    match d {
        ConfigDirective::Multihome => {
            let c = ConfigDirective::Multihome;
            proof {
                model_via_multihome(d);
                model_via_multihome(&c);
                reveal(model_from_multihome);
                assert(c@ =~~= d@);
            }
            c
        },
        ConfigDirective::Echo { parms } => {
            let c = ConfigDirective::Echo { parms: clone_opt_vec(parms) };
            proof {
                model_via_multihome(d);
                model_via_multihome(&c);
                reveal(model_from_multihome);
                assert(c@ =~~= d@);
            }
            c
        },
        ConfigDirective::RemapUsr1 { signal } => {
            let c = ConfigDirective::RemapUsr1 { signal: signal.clone() };
            proof {
                model_via_multihome(d);
                model_via_multihome(&c);
                reveal(model_from_multihome);
                assert(c@ =~~= d@);
            }
            c
        },
        ConfigDirective::Verb { n } => {
            let c = ConfigDirective::Verb { n: n.clone() };
            proof {
                model_via_multihome(d);
                model_via_multihome(&c);
                reveal(model_from_multihome);
                assert(c@ =~~= d@);
            }
            c
        },
        ConfigDirective::Status { file, n } => {
            let c = ConfigDirective::Status { file: file.clone(), n: clone_opt(n) };
            proof {
                model_via_multihome(d);
                model_via_multihome(&c);
                reveal(model_from_multihome);
                assert(c@ =~~= d@);
            }
            c
        },
        ConfigDirective::StatusVersion { n } => {
            let c = ConfigDirective::StatusVersion { n: clone_opt(n) };
            proof {
                model_via_multihome(d);
                model_via_multihome(&c);
                reveal(model_from_multihome);
                assert(c@ =~~= d@);
            }
            c
        },
        ConfigDirective::Mute { n } => {
            let c = ConfigDirective::Mute { n: n.clone() };
            proof {
                model_via_multihome(d);
                model_via_multihome(&c);
                reveal(model_from_multihome);
                assert(c@ =~~= d@);
            }
            c
        },
        ConfigDirective::Compress { algorithm } => {
            let c = ConfigDirective::Compress { algorithm: clone_opt(algorithm) };
            proof {
                model_via_multihome(d);
                model_via_multihome(&c);
                reveal(model_from_multihome);
                assert(c@ =~~= d@);
            }
            c
        },
        ConfigDirective::CompLzo { mode } => {
            let c = ConfigDirective::CompLzo { mode: clone_opt(mode) };
            proof {
                model_via_multihome(d);
                model_via_multihome(&c);
                reveal(model_from_multihome);
                assert(c@ =~~= d@);
            }
            c
        },
        ConfigDirective::CompNoadapt => {
            let c = ConfigDirective::CompNoadapt;
            proof {
                model_via_multihome(d);
                model_via_multihome(&c);
                reveal(model_from_multihome);
                assert(c@ =~~= d@);
            }
            c
        },
        ConfigDirective::Management { ip, port, pw_file } => {
            let c = ConfigDirective::Management {
                ip: ip.clone(),
                port: port.clone(),
                pw_file: clone_opt(pw_file),
            };
            proof {
                model_via_multihome(d);
                model_via_multihome(&c);
                reveal(model_from_multihome);
                assert(c@ =~~= d@);
            }
            c
        },
        ConfigDirective::ManagementClient => {
            let c = ConfigDirective::ManagementClient;
            proof {
                model_via_multihome(d);
                model_via_multihome(&c);
                reveal(model_from_multihome);
                assert(c@ =~~= d@);
            }
            c
        },
        _ => clone_from_management_query_passwords(d),
    }
}

/// The directives cloned by the helpers before `clone_from_management_query_passwords`.
spec fn cloned_before_management_query_passwords(d: &ConfigDirective) -> bool {
    ||| cloned_before_multihome(d)
    ||| (*d) is Multihome
    ||| (*d) is Echo
    ||| (*d) is RemapUsr1
    ||| (*d) is Verb
    ||| (*d) is Status
    ||| (*d) is StatusVersion
    ||| (*d) is Mute
    ||| (*d) is Compress
    ||| (*d) is CompLzo
    ||| (*d) is CompNoadapt
    ||| (*d) is Management
    ||| (*d) is ManagementClient
}

/// Clones the directives of the commands `management-query-passwords` through `management-client-pf`.
#[verifier::rlimit(100)]
fn clone_from_management_query_passwords(d: &ConfigDirective) -> (r: ConfigDirective)
    requires
        !cloned_before_management_query_passwords(d),
    ensures
        r@ == d@,
{
    match d {
        ConfigDirective::ManagementQueryPasswords => {
            let c = ConfigDirective::ManagementQueryPasswords;
            proof {
                model_via_management_query_passwords(d);
                model_via_management_query_passwords(&c);
                reveal(model_from_management_query_passwords);
                assert(c@ =~~= d@);
            }
            c
        },
        ConfigDirective::ManagementQueryProxy => {
            let c = ConfigDirective::ManagementQueryProxy;
            proof {
                model_via_management_query_passwords(d);
                model_via_management_query_passwords(&c);
                reveal(model_from_management_query_passwords);
                assert(c@ =~~= d@);
            }
            c
        },
        ConfigDirective::ManagementQueryRemote => {
            let c = ConfigDirective::ManagementQueryRemote;
            proof {
                model_via_management_query_passwords(d);
                model_via_management_query_passwords(&c);
                reveal(model_from_management_query_passwords);
                assert(c@ =~~= d@);
            }
            c
        },
        ConfigDirective::ManagementExternalKey => {
            let c = ConfigDirective::ManagementExternalKey;
            proof {
                model_via_management_query_passwords(d);
                model_via_management_query_passwords(&c);
                reveal(model_from_management_query_passwords);
                assert(c@ =~~= d@);
            }
            c
        },
        ConfigDirective::ManagementExternalCert { certificate_hint } => {
            let c = ConfigDirective::ManagementExternalCert {
                certificate_hint: certificate_hint.clone(),
            };
            proof {
                model_via_management_query_passwords(d);
                model_via_management_query_passwords(&c);
                reveal(model_from_management_query_passwords);
                assert(c@ =~~= d@);
            }
            c
        },
        ConfigDirective::ManagementForgetDisconnect => {
            let c = ConfigDirective::ManagementForgetDisconnect;
            proof {
                model_via_management_query_passwords(d);
                model_via_management_query_passwords(&c);
                reveal(model_from_management_query_passwords);
                assert(c@ =~~= d@);
            }
            c
        },
        ConfigDirective::ManagementHold => {
            let c = ConfigDirective::ManagementHold;
            proof {
                model_via_management_query_passwords(d);
                model_via_management_query_passwords(&c);
                reveal(model_from_management_query_passwords);
                assert(c@ =~~= d@);
            }
            c
        },
        ConfigDirective::ManagementSignal => {
            let c = ConfigDirective::ManagementSignal;
            proof {
                model_via_management_query_passwords(d);
                model_via_management_query_passwords(&c);
                reveal(model_from_management_query_passwords);
                assert(c@ =~~= d@);
            }
            c
        },
        ConfigDirective::ManagementLogCache { n } => {
            let c = ConfigDirective::ManagementLogCache { n: n.clone() };
            proof {
                model_via_management_query_passwords(d);
                model_via_management_query_passwords(&c);
                reveal(model_from_management_query_passwords);
                assert(c@ =~~= d@);
            }
            c
        },
        ConfigDirective::ManagementUpDown => {
            let c = ConfigDirective::ManagementUpDown;
            proof {
                model_via_management_query_passwords(d);
                model_via_management_query_passwords(&c);
                reveal(model_from_management_query_passwords);
                assert(c@ =~~= d@);
            }
            c
        },
        ConfigDirective::ManagementClientAuth => {
            let c = ConfigDirective::ManagementClientAuth;
            proof {
                model_via_management_query_passwords(d);
                model_via_management_query_passwords(&c);
                reveal(model_from_management_query_passwords);
                assert(c@ =~~= d@);
            }
            c
        },
        ConfigDirective::ManagementClientPf => {
            let c = ConfigDirective::ManagementClientPf;
            proof {
                model_via_management_query_passwords(d);
                model_via_management_query_passwords(&c);
                reveal(model_from_management_query_passwords);
                assert(c@ =~~= d@);
            }
            c
        },
        _ => clone_from_management_client_user(d),
    }
}

/// The directives cloned by the helpers before `clone_from_management_client_user`.
spec fn cloned_before_management_client_user(d: &ConfigDirective) -> bool {
    ||| cloned_before_management_query_passwords(d)
    ||| (*d) is ManagementQueryPasswords
    ||| (*d) is ManagementQueryProxy
    ||| (*d) is ManagementQueryRemote
    ||| (*d) is ManagementExternalKey
    ||| (*d) is ManagementExternalCert
    ||| (*d) is ManagementForgetDisconnect
    ||| (*d) is ManagementHold
    ||| (*d) is ManagementSignal
    ||| (*d) is ManagementLogCache
    ||| (*d) is ManagementUpDown
    ||| (*d) is ManagementClientAuth
    ||| (*d) is ManagementClientPf
}

/// Clones the directives of the commands `management-client-user` through `ifconfig-pool-persist`.
#[verifier::rlimit(100)]
fn clone_from_management_client_user(d: &ConfigDirective) -> (r: ConfigDirective)
    requires
        !cloned_before_management_client_user(d),
    ensures
        r@ == d@,
{
    match d {
        ConfigDirective::ManagementClientUser { u } => {
            let c = ConfigDirective::ManagementClientUser { u: u.clone() };
            proof {
                model_via_management_client_user(d);
                model_via_management_client_user(&c);
                reveal(model_from_management_client_user);
                assert(c@ =~~= d@);
            }
            c
        },
        ConfigDirective::ManagementClientGroup { g } => {
            let c = ConfigDirective::ManagementClientGroup { g: g.clone() };
            proof {
                model_via_management_client_user(d);
                model_via_management_client_user(&c);
                reveal(model_from_management_client_user);
                assert(c@ =~~= d@);
            }
            c
        },
        ConfigDirective::Plugin { module_pathname, init_string } => {
            let c = ConfigDirective::Plugin {
                module_pathname: module_pathname.clone(),
                init_string: clone_opt(init_string),
            };
            proof {
                model_via_management_client_user(d);
                model_via_management_client_user(&c);
                reveal(model_from_management_client_user);
                assert(c@ =~~= d@);
            }
            c
        },
        ConfigDirective::KeyingMaterialExporter { label, len } => {
            let c = ConfigDirective::KeyingMaterialExporter {
                label: label.clone(),
                len: len.clone(),
            };
            proof {
                model_via_management_client_user(d);
                model_via_management_client_user(&c);
                reveal(model_from_management_client_user);
                assert(c@ =~~= d@);
            }
            c
        },
        ConfigDirective::Server { network, netmask, nopool } => {
            let c = ConfigDirective::Server {
                network: network.clone(),
                netmask: netmask.clone(),
                nopool: clone_opt(nopool),
            };
            proof {
                model_via_management_client_user(d);
                model_via_management_client_user(&c);
                reveal(model_from_management_client_user);
                assert(c@ =~~= d@);
            }
            c
        },
        ConfigDirective::Push { option } => {
            let c = ConfigDirective::Push { option: option.clone() };
            proof {
                model_via_management_client_user(d);
                model_via_management_client_user(&c);
                reveal(model_from_management_client_user);
                assert(c@ =~~= d@);
            }
            c
        },
        ConfigDirective::PushReset => {
            let c = ConfigDirective::PushReset;
            proof {
                model_via_management_client_user(d);
                model_via_management_client_user(&c);
                reveal(model_from_management_client_user);
                assert(c@ =~~= d@);
            }
            c
        },
        ConfigDirective::PushRemove { opt } => {
            let c = ConfigDirective::PushRemove { opt: opt.clone() };
            proof {
                model_via_management_client_user(d);
                model_via_management_client_user(&c);
                reveal(model_from_management_client_user);
                assert(c@ =~~= d@);
            }
            c
        },
        ConfigDirective::PushPeerInfo => {
            let c = ConfigDirective::PushPeerInfo;
            proof {
                model_via_management_client_user(d);
                model_via_management_client_user(&c);
                reveal(model_from_management_client_user);
                assert(c@ =~~= d@);
            }
            c
        },
        ConfigDirective::Disable => {
            let c = ConfigDirective::Disable;
            proof {
                model_via_management_client_user(d);
                model_via_management_client_user(&c);
                reveal(model_from_management_client_user);
                assert(c@ =~~= d@);
            }
            c
        },
        ConfigDirective::IfconfigPool { start_ip, end_ip, netmask } => {
            let c = ConfigDirective::IfconfigPool {
                start_ip: start_ip.clone(),
                end_ip: end_ip.clone(),
                netmask: clone_opt(netmask),
            };
            proof {
                model_via_management_client_user(d);
                model_via_management_client_user(&c);
                reveal(model_from_management_client_user);
                assert(c@ =~~= d@);
            }
            c
        },
        ConfigDirective::IfconfigPoolPersist { file, seconds } => {
            let c = ConfigDirective::IfconfigPoolPersist {
                file: file.clone(),
                seconds: clone_opt(seconds),
            };
            proof {
                model_via_management_client_user(d);
                model_via_management_client_user(&c);
                reveal(model_from_management_client_user);
                assert(c@ =~~= d@);
            }
            c
        },
        _ => clone_from_ifconfig_pool_linear(d),
    }
}

/// The directives cloned by the helpers before `clone_from_ifconfig_pool_linear`.
spec fn cloned_before_ifconfig_pool_linear(d: &ConfigDirective) -> bool {
    ||| cloned_before_management_client_user(d)
    ||| (*d) is ManagementClientUser
    ||| (*d) is ManagementClientGroup
    ||| (*d) is Plugin
    ||| (*d) is KeyingMaterialExporter
    ||| (*d) is Server
    ||| (*d) is Push
    ||| (*d) is PushReset
    ||| (*d) is PushRemove
    ||| (*d) is PushPeerInfo
    ||| (*d) is Disable
    ||| (*d) is IfconfigPool
    ||| (*d) is IfconfigPoolPersist
}

/// Clones the directives of the commands `ifconfig-pool-linear` through `bcast-buffers`.
#[verifier::rlimit(100)]
fn clone_from_ifconfig_pool_linear(d: &ConfigDirective) -> (r: ConfigDirective)
    requires
        !cloned_before_ifconfig_pool_linear(d),
    ensures
        r@ == d@,
{
    match d {
        ConfigDirective::IfconfigPoolLinear => {
            let c = ConfigDirective::IfconfigPoolLinear;
            proof {
                model_via_ifconfig_pool_linear(d);
                model_via_ifconfig_pool_linear(&c);
                reveal(model_from_ifconfig_pool_linear);
                assert(c@ =~~= d@);
            }
            c
        },
        ConfigDirective::IfconfigPush { local, remote_netmask, alias } => {
            let c = ConfigDirective::IfconfigPush {
                local: local.clone(),
                remote_netmask: remote_netmask.clone(),
                alias: clone_opt(alias),
            };
            proof {
                model_via_ifconfig_pool_linear(d);
                model_via_ifconfig_pool_linear(&c);
                reveal(model_from_ifconfig_pool_linear);
                assert(c@ =~~= d@);
            }
            c
        },
        ConfigDirective::Iroute { network, netmask } => {
            let c = ConfigDirective::Iroute {
                network: network.clone(),
                netmask: clone_opt(netmask),
            };
            proof {
                model_via_ifconfig_pool_linear(d);
                model_via_ifconfig_pool_linear(&c);
                reveal(model_from_ifconfig_pool_linear);
                assert(c@ =~~= d@);
            }
            c
        },
        ConfigDirective::ClientToClient => {
            let c = ConfigDirective::ClientToClient;
            proof {
                model_via_ifconfig_pool_linear(d);
                model_via_ifconfig_pool_linear(&c);
                reveal(model_from_ifconfig_pool_linear);
                assert(c@ =~~= d@);
            }
            c
        },
        ConfigDirective::DuplicateCn => {
            let c = ConfigDirective::DuplicateCn;
            proof {
                model_via_ifconfig_pool_linear(d);
                model_via_ifconfig_pool_linear(&c);
                reveal(model_from_ifconfig_pool_linear);
                assert(c@ =~~= d@);
            }
            c
        },
        ConfigDirective::ClientConnect { cmd } => {
            let c = ConfigDirective::ClientConnect { cmd: cmd.clone() };
            proof {
                model_via_ifconfig_pool_linear(d);
                model_via_ifconfig_pool_linear(&c);
                reveal(model_from_ifconfig_pool_linear);
                assert(c@ =~~= d@);
            }
            c
        },
        ConfigDirective::ClientDisconnect { cmd } => {
            let c = ConfigDirective::ClientDisconnect { cmd: cmd.clone() };
            proof {
                model_via_ifconfig_pool_linear(d);
                model_via_ifconfig_pool_linear(&c);
                reveal(model_from_ifconfig_pool_linear);
                assert(c@ =~~= d@);
            }
            c
        },
        ConfigDirective::ClientConfigDir { dir } => {
            let c = ConfigDirective::ClientConfigDir { dir: dir.clone() };
            proof {
                model_via_ifconfig_pool_linear(d);
                model_via_ifconfig_pool_linear(&c);
                reveal(model_from_ifconfig_pool_linear);
                assert(c@ =~~= d@);
            }
            c
        },
        ConfigDirective::CcdExclusive => {
            let c = ConfigDirective::CcdExclusive;
            proof {
                model_via_ifconfig_pool_linear(d);
                model_via_ifconfig_pool_linear(&c);
                reveal(model_from_ifconfig_pool_linear);
                assert(c@ =~~= d@);
            }
            c
        },
        ConfigDirective::TmpDir { dir } => {
            let c = ConfigDirective::TmpDir { dir: dir.clone() };
            proof {
                model_via_ifconfig_pool_linear(d);
                model_via_ifconfig_pool_linear(&c);
                reveal(model_from_ifconfig_pool_linear);
                assert(c@ =~~= d@);
            }
            c
        },
        ConfigDirective::HashSize { r, v } => {
            let c = ConfigDirective::HashSize { r: r.clone(), v: v.clone() };
            proof {
                model_via_ifconfig_pool_linear(d);
                model_via_ifconfig_pool_linear(&c);
                reveal(model_from_ifconfig_pool_linear);
                assert(c@ =~~= d@);
            }
            c
        },
        ConfigDirective::BcastBuffers { n } => {
            let c = ConfigDirective::BcastBuffers { n: n.clone() };
            proof {
                model_via_ifconfig_pool_linear(d);
                model_via_ifconfig_pool_linear(&c);
                reveal(model_from_ifconfig_pool_linear);
                assert(c@ =~~= d@);
            }
            c
        },
        _ => clone_from_tcp_queue_limit(d),
    }
}

/// The directives cloned by the helpers before `clone_from_tcp_queue_limit`.
spec fn cloned_before_tcp_queue_limit(d: &ConfigDirective) -> bool {
    ||| cloned_before_ifconfig_pool_linear(d)
    ||| (*d) is IfconfigPoolLinear
    ||| (*d) is IfconfigPush
    ||| (*d) is Iroute
    ||| (*d) is ClientToClient
    ||| (*d) is DuplicateCn
    ||| (*d) is ClientConnect
    ||| (*d) is ClientDisconnect
    ||| (*d) is ClientConfigDir
    ||| (*d) is CcdExclusive
    ||| (*d) is TmpDir
    ||| (*d) is HashSize
    ||| (*d) is BcastBuffers
}

/// Clones the directives of the commands `tcp-queue-limit` through `client-cert-not-required`.
#[verifier::rlimit(100)]
fn clone_from_tcp_queue_limit(d: &ConfigDirective) -> (r: ConfigDirective)
    requires
        !cloned_before_tcp_queue_limit(d),
    ensures
        r@ == d@,
{
    match d {
        ConfigDirective::TcpQueueLimit { n } => {
            let c = ConfigDirective::TcpQueueLimit { n: n.clone() };
            proof {
                model_via_tcp_queue_limit(d);
                model_via_tcp_queue_limit(&c);
                reveal(model_from_tcp_queue_limit);
                assert(c@ =~~= d@);
            }
            c
        },
        ConfigDirective::TcpNodelay => {
            let c = ConfigDirective::TcpNodelay;
            proof {
                model_via_tcp_queue_limit(d);
                model_via_tcp_queue_limit(&c);
                reveal(model_from_tcp_queue_limit);
                assert(c@ =~~= d@);
            }
            c
        },
        ConfigDirective::MaxClients { n } => {
            let c = ConfigDirective::MaxClients { n: n.clone() };
            proof {
                model_via_tcp_queue_limit(d);
                model_via_tcp_queue_limit(&c);
                reveal(model_from_tcp_queue_limit);
                assert(c@ =~~= d@);
            }
            c
        },
        ConfigDirective::MaxRoutesPerClient { n } => {
            let c = ConfigDirective::MaxRoutesPerClient { n: n.clone() };
            proof {
                model_via_tcp_queue_limit(d);
                model_via_tcp_queue_limit(&c);
                reveal(model_from_tcp_queue_limit);
                assert(c@ =~~= d@);
            }
            c
        },
        ConfigDirective::StaleRoutesCheck { n, t } => {
            let c = ConfigDirective::StaleRoutesCheck { n: n.clone(), t: clone_opt(t) };
            proof {
                model_via_tcp_queue_limit(d);
                model_via_tcp_queue_limit(&c);
                reveal(model_from_tcp_queue_limit);
                assert(c@ =~~= d@);
            }
            c
        },
        ConfigDirective::ConnectFreq { n, sec } => {
            let c = ConfigDirective::ConnectFreq { n: n.clone(), sec: sec.clone() };
            proof {
                model_via_tcp_queue_limit(d);
                model_via_tcp_queue_limit(&c);
                reveal(model_from_tcp_queue_limit);
                assert(c@ =~~= d@);
            }
            c
        },
        ConfigDirective::LearnAddress { cmd } => {
            let c = ConfigDirective::LearnAddress { cmd: cmd.clone() };
            proof {
                model_via_tcp_queue_limit(d);
                model_via_tcp_queue_limit(&c);
                reveal(model_from_tcp_queue_limit);
                assert(c@ =~~= d@);
            }
            c
        },
        ConfigDirective::AuthUserPassVerify { cmd, method } => {
            let c = ConfigDirective::AuthUserPassVerify {
                cmd: cmd.clone(),
                method: method.clone(),
            };
            proof {
                model_via_tcp_queue_limit(d);
                model_via_tcp_queue_limit(&c);
                reveal(model_from_tcp_queue_limit);
                assert(c@ =~~= d@);
            }
            c
        },
        ConfigDirective::AuthGenToken { lifetime } => {
            let c = ConfigDirective::AuthGenToken { lifetime: clone_opt(lifetime) };
            proof {
                model_via_tcp_queue_limit(d);
                model_via_tcp_queue_limit(&c);
                reveal(model_from_tcp_queue_limit);
                assert(c@ =~~= d@);
            }
            c
        },
        ConfigDirective::OptVerify => {
            let c = ConfigDirective::OptVerify;
            proof {
                model_via_tcp_queue_limit(d);
                model_via_tcp_queue_limit(&c);
                reveal(model_from_tcp_queue_limit);
                assert(c@ =~~= d@);
            }
            c
        },
        ConfigDirective::AuthUserPassOptional => {
            let c = ConfigDirective::AuthUserPassOptional;
            proof {
                model_via_tcp_queue_limit(d);
                model_via_tcp_queue_limit(&c);
                reveal(model_from_tcp_queue_limit);
                assert(c@ =~~= d@);
            }
            c
        },
        ConfigDirective::ClientCertNotRequired => {
            let c = ConfigDirective::ClientCertNotRequired;
            proof {
                model_via_tcp_queue_limit(d);
                model_via_tcp_queue_limit(&c);
                reveal(model_from_tcp_queue_limit);
                assert(c@ =~~= d@);
            }
            c
        },
        _ => clone_from_verify_client_cert(d),
    }
}

/// The directives cloned by the helpers before `clone_from_verify_client_cert`.
spec fn cloned_before_verify_client_cert(d: &ConfigDirective) -> bool {
    ||| cloned_before_tcp_queue_limit(d)
    ||| (*d) is TcpQueueLimit
    ||| (*d) is TcpNodelay
    ||| (*d) is MaxClients
    ||| (*d) is MaxRoutesPerClient
    ||| (*d) is StaleRoutesCheck
    ||| (*d) is ConnectFreq
    ||| (*d) is LearnAddress
    ||| (*d) is AuthUserPassVerify
    ||| (*d) is AuthGenToken
    ||| (*d) is OptVerify
    ||| (*d) is AuthUserPassOptional
    ||| (*d) is ClientCertNotRequired
}

/// Clones the directives of the commands `verify-client-cert` through `server-poll-timeout`.
#[verifier::rlimit(100)]
fn clone_from_verify_client_cert(d: &ConfigDirective) -> (r: ConfigDirective)
    requires
        !cloned_before_verify_client_cert(d),
    ensures
        r@ == d@,
{
    match d {
        ConfigDirective::VerifyClientCert { none_optional_require } => {
            let c = ConfigDirective::VerifyClientCert {
                none_optional_require: none_optional_require.clone(),
            };
            proof {
                model_via_verify_client_cert(d);
                model_via_verify_client_cert(&c);
                reveal(model_from_verify_client_cert);
                assert(c@ =~~= d@);
            }
            c
        },
        ConfigDirective::UsernameAsCommonName => {
            let c = ConfigDirective::UsernameAsCommonName;
            proof {
                model_via_verify_client_cert(d);
                model_via_verify_client_cert(&c);
                reveal(model_from_verify_client_cert);
                assert(c@ =~~= d@);
            }
            c
        },
        ConfigDirective::CompatNames { no_remapping } => {
            let c = ConfigDirective::CompatNames { no_remapping: clone_opt(no_remapping) };
            proof {
                model_via_verify_client_cert(d);
                model_via_verify_client_cert(&c);
                reveal(model_from_verify_client_cert);
                assert(c@ =~~= d@);
            }
            c
        },
        ConfigDirective::NoNameRemapping => {
            let c = ConfigDirective::NoNameRemapping;
            proof {
                model_via_verify_client_cert(d);
                model_via_verify_client_cert(&c);
                reveal(model_from_verify_client_cert);
                assert(c@ =~~= d@);
            }
            c
        },
        ConfigDirective::PortShare { host, port, dir } => {
            let c = ConfigDirective::PortShare {
                host: host.clone(),
                port: port.clone(),
                dir: clone_opt(dir),
            };
            proof {
                model_via_verify_client_cert(d);
                model_via_verify_client_cert(&c);
                reveal(model_from_verify_client_cert);
                assert(c@ =~~= d@);
            }
            c
        },
        ConfigDirective::Client => {
            let c = ConfigDirective::Client;
            proof {
                model_via_verify_client_cert(d);
                model_via_verify_client_cert(&c);
                reveal(model_from_verify_client_cert);
                assert(c@ =~~= d@);
            }
            c
        },
        ConfigDirective::Pull => {
            let c = ConfigDirective::Pull;
            proof {
                model_via_verify_client_cert(d);
                model_via_verify_client_cert(&c);
                reveal(model_from_verify_client_cert);
                assert(c@ =~~= d@);
            }
            c
        },
        ConfigDirective::PullFilter { accept_or_ignore_or_reject, text } => {
            let c = ConfigDirective::PullFilter {
                accept_or_ignore_or_reject: accept_or_ignore_or_reject.clone(),
                text: text.clone(),
            };
            proof {
                model_via_verify_client_cert(d);
                model_via_verify_client_cert(&c);
                reveal(model_from_verify_client_cert);
                assert(c@ =~~= d@);
            }
            c
        },
        ConfigDirective::AuthUserPass { up } => {
            let c = ConfigDirective::AuthUserPass { up: clone_opt(up) };
            proof {
                model_via_verify_client_cert(d);
                model_via_verify_client_cert(&c);
                reveal(model_from_verify_client_cert);
                assert(c@ =~~= d@);
            }
            c
        },
        ConfigDirective::AuthRetry { auth_retry_type } => {
            let c = ConfigDirective::AuthRetry { auth_retry_type: auth_retry_type.clone() };
            proof {
                model_via_verify_client_cert(d);
                model_via_verify_client_cert(&c);
                reveal(model_from_verify_client_cert);
                assert(c@ =~~= d@);
            }
            c
        },
        ConfigDirective::StaticChallenge { t, e } => {
            let c = ConfigDirective::StaticChallenge { t: t.clone(), e: e.clone() };
            proof {
                model_via_verify_client_cert(d);
                model_via_verify_client_cert(&c);
                reveal(model_from_verify_client_cert);
                assert(c@ =~~= d@);
            }
            c
        },
        ConfigDirective::ServerPollTimeout { n } => {
            let c = ConfigDirective::ServerPollTimeout { n: n.clone() };
            proof {
                model_via_verify_client_cert(d);
                model_via_verify_client_cert(&c);
                reveal(model_from_verify_client_cert);
                assert(c@ =~~= d@);
            }
            c
        },
        _ => clone_from_connect_timeout(d),
    }
}

/// The directives cloned by the helpers before `clone_from_connect_timeout`.
spec fn cloned_before_connect_timeout(d: &ConfigDirective) -> bool {
    ||| cloned_before_verify_client_cert(d)
    ||| (*d) is VerifyClientCert
    ||| (*d) is UsernameAsCommonName
    ||| (*d) is CompatNames
    ||| (*d) is NoNameRemapping
    ||| (*d) is PortShare
    ||| (*d) is Client
    ||| (*d) is Pull
    ||| (*d) is PullFilter
    ||| (*d) is AuthUserPass
    ||| (*d) is AuthRetry
    ||| (*d) is StaticChallenge
    ||| (*d) is ServerPollTimeout
}

/// Clones the directives of the commands `connect-timeout` through `engine`.
#[verifier::rlimit(100)]
fn clone_from_connect_timeout(d: &ConfigDirective) -> (r: ConfigDirective)
    requires
        !cloned_before_connect_timeout(d),
    ensures
        r@ == d@,
{
    match d {
        ConfigDirective::ConnectTimeout { n } => {
            let c = ConfigDirective::ConnectTimeout { n: n.clone() };
            proof {
                model_via_connect_timeout(d);
                model_via_connect_timeout(&c);
                reveal(model_from_connect_timeout);
                assert(c@ =~~= d@);
            }
            c
        },
        ConfigDirective::ExplicitExitNotify { n } => {
            let c = ConfigDirective::ExplicitExitNotify { n: clone_opt(n) };
            proof {
                model_via_connect_timeout(d);
                model_via_connect_timeout(&c);
                reveal(model_from_connect_timeout);
                assert(c@ =~~= d@);
            }
            c
        },
        ConfigDirective::AllowRecursiveRouting => {
            let c = ConfigDirective::AllowRecursiveRouting;
            proof {
                model_via_connect_timeout(d);
                model_via_connect_timeout(&c);
                reveal(model_from_connect_timeout);
                assert(c@ =~~= d@);
            }
            c
        },
        ConfigDirective::Secret { file, direction } => {
            let c = ConfigDirective::Secret { file: file.clone(), direction: clone_opt(direction) };
            proof {
                model_via_connect_timeout(d);
                model_via_connect_timeout(&c);
                reveal(model_from_connect_timeout);
                assert(c@ =~~= d@);
            }
            c
        },
        ConfigDirective::KeyDirection { direction } => {
            let c = ConfigDirective::KeyDirection { direction: direction.clone() };
            proof {
                model_via_connect_timeout(d);
                model_via_connect_timeout(&c);
                reveal(model_from_connect_timeout);
                assert(c@ =~~= d@);
            }
            c
        },
        ConfigDirective::Auth { alg } => {
            let c = ConfigDirective::Auth { alg: alg.clone() };
            proof {
                model_via_connect_timeout(d);
                model_via_connect_timeout(&c);
                reveal(model_from_connect_timeout);
                assert(c@ =~~= d@);
            }
            c
        },
        ConfigDirective::Cipher { alg } => {
            let c = ConfigDirective::Cipher { alg: alg.clone() };
            proof {
                model_via_connect_timeout(d);
                model_via_connect_timeout(&c);
                reveal(model_from_connect_timeout);
                assert(c@ =~~= d@);
            }
            c
        },
        ConfigDirective::NcpCiphers { cipher_list } => {
            let c = ConfigDirective::NcpCiphers { cipher_list: cipher_list.clone() };
            proof {
                model_via_connect_timeout(d);
                model_via_connect_timeout(&c);
                reveal(model_from_connect_timeout);
                assert(c@ =~~= d@);
            }
            c
        },
        ConfigDirective::NcpDisable => {
            let c = ConfigDirective::NcpDisable;
            proof {
                model_via_connect_timeout(d);
                model_via_connect_timeout(&c);
                reveal(model_from_connect_timeout);
                assert(c@ =~~= d@);
            }
            c
        },
        ConfigDirective::Keysize { n } => {
            let c = ConfigDirective::Keysize { n: n.clone() };
            proof {
                model_via_connect_timeout(d);
                model_via_connect_timeout(&c);
                reveal(model_from_connect_timeout);
                assert(c@ =~~= d@);
            }
            c
        },
        ConfigDirective::Prng { alg, nsl } => {
            let c = ConfigDirective::Prng { alg: alg.clone(), nsl: clone_opt(nsl) };
            proof {
                model_via_connect_timeout(d);
                model_via_connect_timeout(&c);
                reveal(model_from_connect_timeout);
                assert(c@ =~~= d@);
            }
            c
        },
        ConfigDirective::Engine { engine_name } => {
            let c = ConfigDirective::Engine { engine_name: clone_opt(engine_name) };
            proof {
                model_via_connect_timeout(d);
                model_via_connect_timeout(&c);
                reveal(model_from_connect_timeout);
                assert(c@ =~~= d@);
            }
            c
        },
        _ => clone_from_no_replay(d),
    }
}

/// The directives cloned by the helpers before `clone_from_no_replay`.
spec fn cloned_before_no_replay(d: &ConfigDirective) -> bool {
    ||| cloned_before_connect_timeout(d)
    ||| (*d) is ConnectTimeout
    ||| (*d) is ExplicitExitNotify
    ||| (*d) is AllowRecursiveRouting
    ||| (*d) is Secret
    ||| (*d) is KeyDirection
    ||| (*d) is Auth
    ||| (*d) is Cipher
    ||| (*d) is NcpCiphers
    ||| (*d) is NcpDisable
    ||| (*d) is Keysize
    ||| (*d) is Prng
    ||| (*d) is Engine
}

/// Clones the directives of the commands `no-replay` through `capath`.
#[verifier::rlimit(100)]
fn clone_from_no_replay(d: &ConfigDirective) -> (r: ConfigDirective)
    requires
        !cloned_before_no_replay(d),
    ensures
        r@ == d@,
{
    match d {
        ConfigDirective::NoReplay => {
            let c = ConfigDirective::NoReplay;
            proof {
                model_via_no_replay(d);
                model_via_no_replay(&c);
                reveal(model_from_no_replay);
                assert(c@ =~~= d@);
            }
            c
        },
        ConfigDirective::ReplayWindow { n, t } => {
            let c = ConfigDirective::ReplayWindow { n: n.clone(), t: clone_opt(t) };
            proof {
                model_via_no_replay(d);
                model_via_no_replay(&c);
                reveal(model_from_no_replay);
                assert(c@ =~~= d@);
            }
            c
        },
        ConfigDirective::MuteReplayWarnings => {
            let c = ConfigDirective::MuteReplayWarnings;
            proof {
                model_via_no_replay(d);
                model_via_no_replay(&c);
                reveal(model_from_no_replay);
                assert(c@ =~~= d@);
            }
            c
        },
        ConfigDirective::ReplayPersist { file } => {
            let c = ConfigDirective::ReplayPersist { file: file.clone() };
            proof {
                model_via_no_replay(d);
                model_via_no_replay(&c);
                reveal(model_from_no_replay);
                assert(c@ =~~= d@);
            }
            c
        },
        ConfigDirective::NoIv => {
            let c = ConfigDirective::NoIv;
            proof {
                model_via_no_replay(d);
                model_via_no_replay(&c);
                reveal(model_from_no_replay);
                assert(c@ =~~= d@);
            }
            c
        },
        ConfigDirective::UsePredictionResistance => {
            let c = ConfigDirective::UsePredictionResistance;
            proof {
                model_via_no_replay(d);
                model_via_no_replay(&c);
                reveal(model_from_no_replay);
                assert(c@ =~~= d@);
            }
            c
        },
        ConfigDirective::TestCrypto => {
            let c = ConfigDirective::TestCrypto;
            proof {
                model_via_no_replay(d);
                model_via_no_replay(&c);
                reveal(model_from_no_replay);
                assert(c@ =~~= d@);
            }
            c
        },
        ConfigDirective::TlsAuth { file, direction } => {
            let c = ConfigDirective::TlsAuth {
                file: file.clone(),
                direction: clone_opt(direction),
            };
            proof {
                model_via_no_replay(d);
                model_via_no_replay(&c);
                reveal(model_from_no_replay);
                assert(c@ =~~= d@);
            }
            c
        },
        ConfigDirective::TlsServer => {
            let c = ConfigDirective::TlsServer;
            proof {
                model_via_no_replay(d);
                model_via_no_replay(&c);
                reveal(model_from_no_replay);
                assert(c@ =~~= d@);
            }
            c
        },
        ConfigDirective::TlsClient => {
            let c = ConfigDirective::TlsClient;
            proof {
                model_via_no_replay(d);
                model_via_no_replay(&c);
                reveal(model_from_no_replay);
                assert(c@ =~~= d@);
            }
            c
        },
        ConfigDirective::Ca { file } => {
            let c = ConfigDirective::Ca { file: file.clone() };
            proof {
                model_via_no_replay(d);
                model_via_no_replay(&c);
                reveal(model_from_no_replay);
                assert(c@ =~~= d@);
            }
            c
        },
        ConfigDirective::Capath { dir } => {
            let c = ConfigDirective::Capath { dir: dir.clone() };
            proof {
                model_via_no_replay(d);
                model_via_no_replay(&c);
                reveal(model_from_no_replay);
                assert(c@ =~~= d@);
            }
            c
        },
        _ => clone_from_dh(d),
    }
}

/// The directives cloned by the helpers before `clone_from_dh`.
spec fn cloned_before_dh(d: &ConfigDirective) -> bool {
    ||| cloned_before_no_replay(d)
    ||| (*d) is NoReplay
    ||| (*d) is ReplayWindow
    ||| (*d) is MuteReplayWarnings
    ||| (*d) is ReplayPersist
    ||| (*d) is NoIv
    ||| (*d) is UsePredictionResistance
    ||| (*d) is TestCrypto
    ||| (*d) is TlsAuth
    ||| (*d) is TlsServer
    ||| (*d) is TlsClient
    ||| (*d) is Ca
    ||| (*d) is Capath
}

/// Clones the directives of the commands `dh` through `pkcs11-id-management`.
#[verifier::rlimit(100)]
fn clone_from_dh(d: &ConfigDirective) -> (r: ConfigDirective)
    requires
        !cloned_before_dh(d),
    ensures
        r@ == d@,
{
    match d {
        ConfigDirective::Dh { file } => {
            let c = ConfigDirective::Dh { file: file.clone() };
            proof {
                model_via_dh(d);
                model_via_dh(&c);
                reveal(model_from_dh);
                assert(c@ =~~= d@);
            }
            c
        },
        ConfigDirective::EcdhCurve { name } => {
            let c = ConfigDirective::EcdhCurve { name: name.clone() };
            proof {
                model_via_dh(d);
                model_via_dh(&c);
                reveal(model_from_dh);
                assert(c@ =~~= d@);
            }
            c
        },
        ConfigDirective::Cert { file } => {
            let c = ConfigDirective::Cert { file: file.clone() };
            proof {
                model_via_dh(d);
                model_via_dh(&c);
                reveal(model_from_dh);
                assert(c@ =~~= d@);
            }
            c
        },
        ConfigDirective::ExtraCerts { file } => {
            let c = ConfigDirective::ExtraCerts { file: file.clone() };
            proof {
                model_via_dh(d);
                model_via_dh(&c);
                reveal(model_from_dh);
                assert(c@ =~~= d@);
            }
            c
        },
        ConfigDirective::Key { file } => {
            let c = ConfigDirective::Key { file: file.clone() };
            proof {
                model_via_dh(d);
                model_via_dh(&c);
                reveal(model_from_dh);
                assert(c@ =~~= d@);
            }
            c
        },
        ConfigDirective::TlsVersionMin { version, or_highest } => {
            let c = ConfigDirective::TlsVersionMin {
                version: version.clone(),
                or_highest: clone_opt(or_highest),
            };
            proof {
                model_via_dh(d);
                model_via_dh(&c);
                reveal(model_from_dh);
                assert(c@ =~~= d@);
            }
            c
        },
        ConfigDirective::TlsVersionMax { version } => {
            let c = ConfigDirective::TlsVersionMax { version: version.clone() };
            proof {
                model_via_dh(d);
                model_via_dh(&c);
                reveal(model_from_dh);
                assert(c@ =~~= d@);
            }
            c
        },
        ConfigDirective::Pkcs12 { file } => {
            let c = ConfigDirective::Pkcs12 { file: file.clone() };
            proof {
                model_via_dh(d);
                model_via_dh(&c);
                reveal(model_from_dh);
                assert(c@ =~~= d@);
            }
            c
        },
        ConfigDirective::VerifyHash { hash } => {
            let c = ConfigDirective::VerifyHash { hash: hash.clone() };
            proof {
                model_via_dh(d);
                model_via_dh(&c);
                reveal(model_from_dh);
                assert(c@ =~~= d@);
            }
            c
        },
        ConfigDirective::Pkcs11CertPrivate { providers } => {
            let c = ConfigDirective::Pkcs11CertPrivate { providers: clone_vec(providers) };
            proof {
                model_via_dh(d);
                model_via_dh(&c);
                reveal(model_from_dh);
                assert(c@ =~~= d@);
            }
            c
        },
        ConfigDirective::Pkcs11Id { name } => {
            let c = ConfigDirective::Pkcs11Id { name: name.clone() };
            proof {
                model_via_dh(d);
                model_via_dh(&c);
                reveal(model_from_dh);
                assert(c@ =~~= d@);
            }
            c
        },
        ConfigDirective::Pkcs11IdManagement => {
            let c = ConfigDirective::Pkcs11IdManagement;
            proof {
                model_via_dh(d);
                model_via_dh(&c);
                reveal(model_from_dh);
                assert(c@ =~~= d@);
            }
            c
        },
        _ => clone_from_pkcs11_pin_cache(d),
    }
}

/// The directives cloned by the helpers before `clone_from_pkcs11_pin_cache`.
spec fn cloned_before_pkcs11_pin_cache(d: &ConfigDirective) -> bool {
    ||| cloned_before_dh(d)
    ||| (*d) is Dh
    ||| (*d) is EcdhCurve
    ||| (*d) is Cert
    ||| (*d) is ExtraCerts
    ||| (*d) is Key
    ||| (*d) is TlsVersionMin
    ||| (*d) is TlsVersionMax
    ||| (*d) is Pkcs12
    ||| (*d) is VerifyHash
    ||| (*d) is Pkcs11CertPrivate
    ||| (*d) is Pkcs11Id
    ||| (*d) is Pkcs11IdManagement
}

/// Clones the directives of the commands `pkcs11-pin-cache` through `hand-window`.
#[verifier::rlimit(100)]
fn clone_from_pkcs11_pin_cache(d: &ConfigDirective) -> (r: ConfigDirective)
    requires
        !cloned_before_pkcs11_pin_cache(d),
    ensures
        r@ == d@,
{
    match d {
        ConfigDirective::Pkcs11PinCache { seconds } => {
            let c = ConfigDirective::Pkcs11PinCache { seconds: seconds.clone() };
            proof {
                model_via_pkcs11_pin_cache(d);
                model_via_pkcs11_pin_cache(&c);
                reveal(model_from_pkcs11_pin_cache);
                assert(c@ =~~= d@);
            }
            c
        },
        ConfigDirective::Pkcs11ProtectedAuthentication { providers } => {
            let c = ConfigDirective::Pkcs11ProtectedAuthentication {
                providers: clone_vec(providers),
            };
            proof {
                model_via_pkcs11_pin_cache(d);
                model_via_pkcs11_pin_cache(&c);
                reveal(model_from_pkcs11_pin_cache);
                assert(c@ =~~= d@);
            }
            c
        },
        ConfigDirective::Pkcs11Providers { providers } => {
            let c = ConfigDirective::Pkcs11Providers { providers: clone_vec(providers) };
            proof {
                model_via_pkcs11_pin_cache(d);
                model_via_pkcs11_pin_cache(&c);
                reveal(model_from_pkcs11_pin_cache);
                assert(c@ =~~= d@);
            }
            c
        },
        ConfigDirective::Pkcs11PrivateMode { modes } => {
            let c = ConfigDirective::Pkcs11PrivateMode { modes: clone_vec(modes) };
            proof {
                model_via_pkcs11_pin_cache(d);
                model_via_pkcs11_pin_cache(&c);
                reveal(model_from_pkcs11_pin_cache);
                assert(c@ =~~= d@);
            }
            c
        },
        ConfigDirective::Cryptoapicert { select_string } => {
            let c = ConfigDirective::Cryptoapicert { select_string: select_string.clone() };
            proof {
                model_via_pkcs11_pin_cache(d);
                model_via_pkcs11_pin_cache(&c);
                reveal(model_from_pkcs11_pin_cache);
                assert(c@ =~~= d@);
            }
            c
        },
        ConfigDirective::KeyMethod { m } => {
            let c = ConfigDirective::KeyMethod { m: m.clone() };
            proof {
                model_via_pkcs11_pin_cache(d);
                model_via_pkcs11_pin_cache(&c);
                reveal(model_from_pkcs11_pin_cache);
                assert(c@ =~~= d@);
            }
            c
        },
        ConfigDirective::TlsCipher { l } => {
            let c = ConfigDirective::TlsCipher { l: l.clone() };
            proof {
                model_via_pkcs11_pin_cache(d);
                model_via_pkcs11_pin_cache(&c);
                reveal(model_from_pkcs11_pin_cache);
                assert(c@ =~~= d@);
            }
            c
        },
        ConfigDirective::TlsTimeout { n } => {
            let c = ConfigDirective::TlsTimeout { n: n.clone() };
            proof {
                model_via_pkcs11_pin_cache(d);
                model_via_pkcs11_pin_cache(&c);
                reveal(model_from_pkcs11_pin_cache);
                assert(c@ =~~= d@);
            }
            c
        },
        ConfigDirective::RenegBytes { n } => {
            let c = ConfigDirective::RenegBytes { n: n.clone() };
            proof {
                model_via_pkcs11_pin_cache(d);
                model_via_pkcs11_pin_cache(&c);
                reveal(model_from_pkcs11_pin_cache);
                assert(c@ =~~= d@);
            }
            c
        },
        ConfigDirective::RenegPkts { n } => {
            let c = ConfigDirective::RenegPkts { n: n.clone() };
            proof {
                model_via_pkcs11_pin_cache(d);
                model_via_pkcs11_pin_cache(&c);
                reveal(model_from_pkcs11_pin_cache);
                assert(c@ =~~= d@);
            }
            c
        },
        ConfigDirective::RenegSec { n } => {
            let c = ConfigDirective::RenegSec { n: n.clone() };
            proof {
                model_via_pkcs11_pin_cache(d);
                model_via_pkcs11_pin_cache(&c);
                reveal(model_from_pkcs11_pin_cache);
                assert(c@ =~~= d@);
            }
            c
        },
        ConfigDirective::HandWindow { n } => {
            let c = ConfigDirective::HandWindow { n: n.clone() };
            proof {
                model_via_pkcs11_pin_cache(d);
                model_via_pkcs11_pin_cache(&c);
                reveal(model_from_pkcs11_pin_cache);
                assert(c@ =~~= d@);
            }
            c
        },
        _ => clone_from_tran_window(d),
    }
}

/// The directives cloned by the helpers before `clone_from_tran_window`.
spec fn cloned_before_tran_window(d: &ConfigDirective) -> bool {
    ||| cloned_before_pkcs11_pin_cache(d)
    ||| (*d) is Pkcs11PinCache
    ||| (*d) is Pkcs11ProtectedAuthentication
    ||| (*d) is Pkcs11Providers
    ||| (*d) is Pkcs11PrivateMode
    ||| (*d) is Cryptoapicert
    ||| (*d) is KeyMethod
    ||| (*d) is TlsCipher
    ||| (*d) is TlsTimeout
    ||| (*d) is RenegBytes
    ||| (*d) is RenegPkts
    ||| (*d) is RenegSec
    ||| (*d) is HandWindow
}

/// Clones the directives of the commands `tran-window` through `x509-track`.
#[verifier::rlimit(100)]
fn clone_from_tran_window(d: &ConfigDirective) -> (r: ConfigDirective)
    requires
        !cloned_before_tran_window(d),
    ensures
        r@ == d@,
{
    match d {
        ConfigDirective::TranWindow { n } => {
            let c = ConfigDirective::TranWindow { n: n.clone() };
            proof {
                model_via_tran_window(d);
                model_via_tran_window(&c);
                reveal(model_from_tran_window);
                assert(c@ =~~= d@);
            }
            c
        },
        ConfigDirective::SingleSession => {
            let c = ConfigDirective::SingleSession;
            proof {
                model_via_tran_window(d);
                model_via_tran_window(&c);
                reveal(model_from_tran_window);
                assert(c@ =~~= d@);
            }
            c
        },
        ConfigDirective::TlsExit => {
            let c = ConfigDirective::TlsExit;
            proof {
                model_via_tran_window(d);
                model_via_tran_window(&c);
                reveal(model_from_tran_window);
                assert(c@ =~~= d@);
            }
            c
        },
        ConfigDirective::TlsCrypt { file } => {
            let c = ConfigDirective::TlsCrypt { file: file.clone() };
            proof {
                model_via_tran_window(d);
                model_via_tran_window(&c);
                reveal(model_from_tran_window);
                assert(c@ =~~= d@);
            }
            c
        },
        ConfigDirective::Askpass { file } => {
            let c = ConfigDirective::Askpass { file: clone_opt(file) };
            proof {
                model_via_tran_window(d);
                model_via_tran_window(&c);
                reveal(model_from_tran_window);
                assert(c@ =~~= d@);
            }
            c
        },
        ConfigDirective::AuthNocache => {
            let c = ConfigDirective::AuthNocache;
            proof {
                model_via_tran_window(d);
                model_via_tran_window(&c);
                reveal(model_from_tran_window);
                assert(c@ =~~= d@);
            }
            c
        },
        ConfigDirective::AuthToken { token } => {
            let c = ConfigDirective::AuthToken { token: token.clone() };
            proof {
                model_via_tran_window(d);
                model_via_tran_window(&c);
                reveal(model_from_tran_window);
                assert(c@ =~~= d@);
            }
            c
        },
        ConfigDirective::TlsVerify { cmd } => {
            let c = ConfigDirective::TlsVerify { cmd: cmd.clone() };
            proof {
                model_via_tran_window(d);
                model_via_tran_window(&c);
                reveal(model_from_tran_window);
                assert(c@ =~~= d@);
            }
            c
        },
        ConfigDirective::TlsExportCert { directory } => {
            let c = ConfigDirective::TlsExportCert { directory: directory.clone() };
            proof {
                model_via_tran_window(d);
                model_via_tran_window(&c);
                reveal(model_from_tran_window);
                assert(c@ =~~= d@);
            }
            c
        },
        ConfigDirective::X509UsernameField { fieldname } => {
            let c = ConfigDirective::X509UsernameField { fieldname: fieldname.clone() };
            proof {
                model_via_tran_window(d);
                model_via_tran_window(&c);
                reveal(model_from_tran_window);
                assert(c@ =~~= d@);
            }
            c
        },
        ConfigDirective::VerifyX509Name { name, verify_x509_name_type } => {
            let c = ConfigDirective::VerifyX509Name {
                name: name.clone(),
                verify_x509_name_type: verify_x509_name_type.clone(),
            };
            proof {
                model_via_tran_window(d);
                model_via_tran_window(&c);
                reveal(model_from_tran_window);
                assert(c@ =~~= d@);
            }
            c
        },
        ConfigDirective::X509Track { attribute } => {
            let c = ConfigDirective::X509Track { attribute: attribute.clone() };
            proof {
                model_via_tran_window(d);
                model_via_tran_window(&c);
                reveal(model_from_tran_window);
                assert(c@ =~~= d@);
            }
            c
        },
        _ => clone_from_ns_cert_type(d),
    }
}

/// The directives cloned by the helpers before `clone_from_ns_cert_type`.
spec fn cloned_before_ns_cert_type(d: &ConfigDirective) -> bool {
    ||| cloned_before_tran_window(d)
    ||| (*d) is TranWindow
    ||| (*d) is SingleSession
    ||| (*d) is TlsExit
    ||| (*d) is TlsCrypt
    ||| (*d) is Askpass
    ||| (*d) is AuthNocache
    ||| (*d) is AuthToken
    ||| (*d) is TlsVerify
    ||| (*d) is TlsExportCert
    ||| (*d) is X509UsernameField
    ||| (*d) is VerifyX509Name
    ||| (*d) is X509Track
}

/// Clones the directives of the commands `ns-cert-type` through `mktun`.
#[verifier::rlimit(100)]
fn clone_from_ns_cert_type(d: &ConfigDirective) -> (r: ConfigDirective)
    requires
        !cloned_before_ns_cert_type(d),
    ensures
        r@ == d@,
{
    match d {
        ConfigDirective::NsCertType { client_or_server } => {
            let c = ConfigDirective::NsCertType { client_or_server: client_or_server.clone() };
            proof {
                model_via_ns_cert_type(d);
                model_via_ns_cert_type(&c);
                reveal(model_from_ns_cert_type);
                assert(c@ =~~= d@);
            }
            c
        },
        ConfigDirective::RemoteCertKu { values } => {
            let c = ConfigDirective::RemoteCertKu { values: clone_vec(values) };
            proof {
                model_via_ns_cert_type(d);
                model_via_ns_cert_type(&c);
                reveal(model_from_ns_cert_type);
                assert(c@ =~~= d@);
            }
            c
        },
        ConfigDirective::RemoteCertEku { oid } => {
            let c = ConfigDirective::RemoteCertEku { oid: oid.clone() };
            proof {
                model_via_ns_cert_type(d);
                model_via_ns_cert_type(&c);
                reveal(model_from_ns_cert_type);
                assert(c@ =~~= d@);
            }
            c
        },
        ConfigDirective::RemoteCertTls { client_or_server } => {
            let c = ConfigDirective::RemoteCertTls { client_or_server: client_or_server.clone() };
            proof {
                model_via_ns_cert_type(d);
                model_via_ns_cert_type(&c);
                reveal(model_from_ns_cert_type);
                assert(c@ =~~= d@);
            }
            c
        },
        ConfigDirective::CrlVerify { file, direction } => {
            let c = ConfigDirective::CrlVerify {
                file: file.clone(),
                direction: clone_opt(direction),
            };
            proof {
                model_via_ns_cert_type(d);
                model_via_ns_cert_type(&c);
                reveal(model_from_ns_cert_type);
                assert(c@ =~~= d@);
            }
            c
        },
        ConfigDirective::ShowCiphers => {
            let c = ConfigDirective::ShowCiphers;
            proof {
                model_via_ns_cert_type(d);
                model_via_ns_cert_type(&c);
                reveal(model_from_ns_cert_type);
                assert(c@ =~~= d@);
            }
            c
        },
        ConfigDirective::ShowDigests => {
            let c = ConfigDirective::ShowDigests;
            proof {
                model_via_ns_cert_type(d);
                model_via_ns_cert_type(&c);
                reveal(model_from_ns_cert_type);
                assert(c@ =~~= d@);
            }
            c
        },
        ConfigDirective::ShowTls => {
            let c = ConfigDirective::ShowTls;
            proof {
                model_via_ns_cert_type(d);
                model_via_ns_cert_type(&c);
                reveal(model_from_ns_cert_type);
                assert(c@ =~~= d@);
            }
            c
        },
        ConfigDirective::ShowEngines => {
            let c = ConfigDirective::ShowEngines;
            proof {
                model_via_ns_cert_type(d);
                model_via_ns_cert_type(&c);
                reveal(model_from_ns_cert_type);
                assert(c@ =~~= d@);
            }
            c
        },
        ConfigDirective::ShowCurves => {
            let c = ConfigDirective::ShowCurves;
            proof {
                model_via_ns_cert_type(d);
                model_via_ns_cert_type(&c);
                reveal(model_from_ns_cert_type);
                assert(c@ =~~= d@);
            }
            c
        },
        ConfigDirective::Genkey => {
            let c = ConfigDirective::Genkey;
            proof {
                model_via_ns_cert_type(d);
                model_via_ns_cert_type(&c);
                reveal(model_from_ns_cert_type);
                assert(c@ =~~= d@);
            }
            c
        },
        ConfigDirective::Mktun => {
            let c = ConfigDirective::Mktun;
            proof {
                model_via_ns_cert_type(d);
                model_via_ns_cert_type(&c);
                reveal(model_from_ns_cert_type);
                assert(c@ =~~= d@);
            }
            c
        },
        _ => clone_from_rmtun(d),
    }
}

/// The directives cloned by the helpers before `clone_from_rmtun`.
spec fn cloned_before_rmtun(d: &ConfigDirective) -> bool {
    ||| cloned_before_ns_cert_type(d)
    ||| (*d) is NsCertType
    ||| (*d) is RemoteCertKu
    ||| (*d) is RemoteCertEku
    ||| (*d) is RemoteCertTls
    ||| (*d) is CrlVerify
    ||| (*d) is ShowCiphers
    ||| (*d) is ShowDigests
    ||| (*d) is ShowTls
    ||| (*d) is ShowEngines
    ||| (*d) is ShowCurves
    ||| (*d) is Genkey
    ||| (*d) is Mktun
}

/// Clones the directives of the commands `rmtun` through `pause-exit`.
#[verifier::rlimit(100)]
fn clone_from_rmtun(d: &ConfigDirective) -> (r: ConfigDirective)
    requires
        !cloned_before_rmtun(d),
    ensures
        r@ == d@,
{
    match d {
        ConfigDirective::Rmtun => {
            let c = ConfigDirective::Rmtun;
            proof {
                model_via_rmtun(d);
                model_via_rmtun(&c);
                reveal(model_from_rmtun);
                assert(c@ =~~= d@);
            }
            c
        },
        ConfigDirective::WinSys { path } => {
            let c = ConfigDirective::WinSys { path: path.clone() };
            proof {
                model_via_rmtun(d);
                model_via_rmtun(&c);
                reveal(model_from_rmtun);
                assert(c@ =~~= d@);
            }
            c
        },
        ConfigDirective::IpWin32 { method } => {
            let c = ConfigDirective::IpWin32 { method: method.clone() };
            proof {
                model_via_rmtun(d);
                model_via_rmtun(&c);
                reveal(model_from_rmtun);
                assert(c@ =~~= d@);
            }
            c
        },
        ConfigDirective::RouteMethod { m } => {
            let c = ConfigDirective::RouteMethod { m: m.clone() };
            proof {
                model_via_rmtun(d);
                model_via_rmtun(&c);
                reveal(model_from_rmtun);
                assert(c@ =~~= d@);
            }
            c
        },
        ConfigDirective::DhcpOption { dhcp_option_type, parm } => {
            let c = ConfigDirective::DhcpOption {
                dhcp_option_type: dhcp_option_type.clone(),
                parm: clone_opt(parm),
            };
            proof {
                model_via_rmtun(d);
                model_via_rmtun(&c);
                reveal(model_from_rmtun);
                assert(c@ =~~= d@);
            }
            c
        },
        ConfigDirective::TapSleep { n } => {
            let c = ConfigDirective::TapSleep { n: n.clone() };
            proof {
                model_via_rmtun(d);
                model_via_rmtun(&c);
                reveal(model_from_rmtun);
                assert(c@ =~~= d@);
            }
            c
        },
        ConfigDirective::ShowNetUp => {
            let c = ConfigDirective::ShowNetUp;
            proof {
                model_via_rmtun(d);
                model_via_rmtun(&c);
                reveal(model_from_rmtun);
                assert(c@ =~~= d@);
            }
            c
        },
        ConfigDirective::BlockOutsideDns => {
            let c = ConfigDirective::BlockOutsideDns;
            proof {
                model_via_rmtun(d);
                model_via_rmtun(&c);
                reveal(model_from_rmtun);
                assert(c@ =~~= d@);
            }
            c
        },
        ConfigDirective::DhcpRenew => {
            let c = ConfigDirective::DhcpRenew;
            proof {
                model_via_rmtun(d);
                model_via_rmtun(&c);
                reveal(model_from_rmtun);
                assert(c@ =~~= d@);
            }
            c
        },
        ConfigDirective::DhcpRelease => {
            let c = ConfigDirective::DhcpRelease;
            proof {
                model_via_rmtun(d);
                model_via_rmtun(&c);
                reveal(model_from_rmtun);
                assert(c@ =~~= d@);
            }
            c
        },
        ConfigDirective::RegisterDns => {
            let c = ConfigDirective::RegisterDns;
            proof {
                model_via_rmtun(d);
                model_via_rmtun(&c);
                reveal(model_from_rmtun);
                assert(c@ =~~= d@);
            }
            c
        },
        ConfigDirective::PauseExit => {
            let c = ConfigDirective::PauseExit;
            proof {
                model_via_rmtun(d);
                model_via_rmtun(&c);
                reveal(model_from_rmtun);
                assert(c@ =~~= d@);
            }
            c
        },
        _ => clone_from_service(d),
    }
}

/// The directives cloned by the helpers before `clone_from_service`.
spec fn cloned_before_service(d: &ConfigDirective) -> bool {
    ||| cloned_before_rmtun(d)
    ||| (*d) is Rmtun
    ||| (*d) is WinSys
    ||| (*d) is IpWin32
    ||| (*d) is RouteMethod
    ||| (*d) is DhcpOption
    ||| (*d) is TapSleep
    ||| (*d) is ShowNetUp
    ||| (*d) is BlockOutsideDns
    ||| (*d) is DhcpRenew
    ||| (*d) is DhcpRelease
    ||| (*d) is RegisterDns
    ||| (*d) is PauseExit
}

/// Clones the directives of the commands `service` through `ifconfig-ipv6-push`.
#[verifier::rlimit(100)]
fn clone_from_service(d: &ConfigDirective) -> (r: ConfigDirective)
    requires
        !cloned_before_service(d),
    ensures
        r@ == d@,
{
    match d {
        ConfigDirective::Service { exit_event, initial_state_of_event } => {
            let c = ConfigDirective::Service {
                exit_event: exit_event.clone(),
                initial_state_of_event: clone_opt(initial_state_of_event),
            };
            proof {
                model_via_service(d);
                model_via_service(&c);
                reveal(model_from_service);
                assert(c@ =~~= d@);
            }
            c
        },
        ConfigDirective::ShowAdapters => {
            let c = ConfigDirective::ShowAdapters;
            proof {
                model_via_service(d);
                model_via_service(&c);
                reveal(model_from_service);
                assert(c@ =~~= d@);
            }
            c
        },
        ConfigDirective::AllowNonadmin { tap_adapter } => {
            let c = ConfigDirective::AllowNonadmin { tap_adapter: clone_opt(tap_adapter) };
            proof {
                model_via_service(d);
                model_via_service(&c);
                reveal(model_from_service);
                assert(c@ =~~= d@);
            }
            c
        },
        ConfigDirective::ShowValidSubnets => {
            let c = ConfigDirective::ShowValidSubnets;
            proof {
                model_via_service(d);
                model_via_service(&c);
                reveal(model_from_service);
                assert(c@ =~~= d@);
            }
            c
        },
        ConfigDirective::ShowNet => {
            let c = ConfigDirective::ShowNet;
            proof {
                model_via_service(d);
                model_via_service(&c);
                reveal(model_from_service);
                assert(c@ =~~= d@);
            }
            c
        },
        ConfigDirective::ShowPkcs11Ids { provider, cert_private } => {
            let c = ConfigDirective::ShowPkcs11Ids {
                provider: clone_opt(provider),
                cert_private: clone_opt(cert_private),
            };
            proof {
                model_via_service(d);
                model_via_service(&c);
                reveal(model_from_service);
                assert(c@ =~~= d@);
            }
            c
        },
        ConfigDirective::ShowGateway { v6target } => {
            let c = ConfigDirective::ShowGateway { v6target: clone_opt(v6target) };
            proof {
                model_via_service(d);
                model_via_service(&c);
                reveal(model_from_service);
                assert(c@ =~~= d@);
            }
            c
        },
        ConfigDirective::IfconfigIpv6 { ipv6addr, ipv6remote } => {
            let c = ConfigDirective::IfconfigIpv6 {
                ipv6addr: ipv6addr.clone(),
                ipv6remote: ipv6remote.clone(),
            };
            proof {
                model_via_service(d);
                model_via_service(&c);
                reveal(model_from_service);
                assert(c@ =~~= d@);
            }
            c
        },
        ConfigDirective::RouteIpv6 { ipv6addr, gateway, metric } => {
            let c = ConfigDirective::RouteIpv6 {
                ipv6addr: ipv6addr.clone(),
                gateway: clone_opt(gateway),
                metric: clone_opt(metric),
            };
            proof {
                model_via_service(d);
                model_via_service(&c);
                reveal(model_from_service);
                assert(c@ =~~= d@);
            }
            c
        },
        ConfigDirective::ServerIpv6 { ipv6addr } => {
            let c = ConfigDirective::ServerIpv6 { ipv6addr: ipv6addr.clone() };
            proof {
                model_via_service(d);
                model_via_service(&c);
                reveal(model_from_service);
                assert(c@ =~~= d@);
            }
            c
        },
        ConfigDirective::IfconfigIpv6Pool { ipv6addr } => {
            let c = ConfigDirective::IfconfigIpv6Pool { ipv6addr: ipv6addr.clone() };
            proof {
                model_via_service(d);
                model_via_service(&c);
                reveal(model_from_service);
                assert(c@ =~~= d@);
            }
            c
        },
        ConfigDirective::IfconfigIpv6Push { ipv6addr, ipv6remote } => {
            let c = ConfigDirective::IfconfigIpv6Push {
                ipv6addr: ipv6addr.clone(),
                ipv6remote: ipv6remote.clone(),
            };
            proof {
                model_via_service(d);
                model_via_service(&c);
                reveal(model_from_service);
                assert(c@ =~~= d@);
            }
            c
        },
        _ => clone_from_iroute_ipv6(d),
    }
}

/// The directives cloned by the helpers before `clone_from_iroute_ipv6`.
spec fn cloned_before_iroute_ipv6(d: &ConfigDirective) -> bool {
    ||| cloned_before_service(d)
    ||| (*d) is Service
    ||| (*d) is ShowAdapters
    ||| (*d) is AllowNonadmin
    ||| (*d) is ShowValidSubnets
    ||| (*d) is ShowNet
    ||| (*d) is ShowPkcs11Ids
    ||| (*d) is ShowGateway
    ||| (*d) is IfconfigIpv6
    ||| (*d) is RouteIpv6
    ||| (*d) is ServerIpv6
    ||| (*d) is IfconfigIpv6Pool
    ||| (*d) is IfconfigIpv6Push
}

/// Clones the directives of the commands `iroute-ipv6` through `server-bridge`.
#[verifier::rlimit(100)]
fn clone_from_iroute_ipv6(d: &ConfigDirective) -> (r: ConfigDirective)
    requires
        !cloned_before_iroute_ipv6(d),
    ensures
        r@ == d@,
{
    match d {
        ConfigDirective::IrouteIpv6 { ipv6addr } => {
            let c = ConfigDirective::IrouteIpv6 { ipv6addr: ipv6addr.clone() };
            proof {
                model_via_iroute_ipv6(d);
                model_via_iroute_ipv6(&c);
                reveal(model_from_iroute_ipv6);
                assert(c@ =~~= d@);
            }
            c
        },
        ConfigDirective::ServerBridge(arg) => {
            let c = ConfigDirective::ServerBridge(arg.clone());
            proof {
                model_via_iroute_ipv6(d);
                model_via_iroute_ipv6(&c);
                reveal(model_from_iroute_ipv6);
                assert(c@ =~~= d@);
            }
            c
        },
        _ => unreached(),
    }
}

impl Clone for ConfigDirective {
    /// Cloning preserves the directive's model.
    fn clone(&self) -> (r: Self)
        ensures
            r@ == self@,
    {
        clone_from_help(self)
    }
}

/// Clones an optional argument.
fn clone_opt(o: &Option<String>) -> (r: Option<String>)
    ensures
        r == *o,
{
    match o {
        Some(s) => Some(s.clone()),
        None => None,
    }
}

/// Clones a variadic argument list.
fn clone_vec(v: &Vec<String>) -> (r: Vec<String>)
    ensures
        r@ == v@,
{
    let mut r: Vec<String> = Vec::new();
    let mut i: usize = 0;
    while i < v.len()
        invariant
            i <= v@.len(),
            r@ == v@.take(i as int),
        decreases v@.len() - i,
    {
        r.push(v[i].clone());
        proof {
            assert(v@.take(i as int).push(v@[i as int]) =~= v@.take(i as int + 1));
        }
        i += 1;
    }
    proof {
        assert(v@.take(v@.len() as int) =~= v@);
    }
    r
}

/// Clones an optional variadic argument list.
fn clone_opt_vec(o: &Option<Vec<String>>) -> (r: Option<Vec<String>>)
    ensures
        r.deep_view() == o.deep_view(),
{
    match o {
        Some(v) => Some(clone_vec(v)),
        None => None,
    }
}

/// The answer for one command line: an unknown command, a known command with
/// too few argument tokens, or the parsed directive.
#[derive(Debug)]
pub enum LineParseResult {
    NoMatchingCommand,
    NotEnoughArguments,
    Success(ConfigDirective),
}

impl View for LineParseResult {
    type V = ParseOutcome;

    open spec fn view(&self) -> ParseOutcome {
        match self {
            LineParseResult::NoMatchingCommand => ParseOutcome::NoMatch,
            LineParseResult::NotEnoughArguments => ParseOutcome::NotEnough,
            LineParseResult::Success(d) => ParseOutcome::Parsed(d@),
        }
    }
}

} // verus!
