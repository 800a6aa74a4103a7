//! The directive registry: every known command name with its argument shape.
//!
//! The registry is fixed data: lookup is exact string matching on the
//! registered (lowercase, hyphenated) names, and each command's shape says
//! how many argument tokens it requires and how the rest are consumed.

use vstd::prelude::*;

verus! {

/// One identifier per known command.
pub enum CommandId {
    Help,
    Config,
    Mode,
    Local,
    Remote,
    RemoteRandomHostname,
    ProtoForce,
    RemoteRandom,
    Proto,
    ConnectRetry,
    ConnectRetryMax,
    ShowProxySettings,
    HttpProxy,
    HttpProxyOption,
    HttpProxyUserPass,
    SocksProxy,
    ResolvRetry,
    Float,
    Ipchange,
    Port,
    Lport,
    Rport,
    Bind,
    Nobind,
    Dev,
    DevType,
    Topology,
    DevNode,
    Lladdr,
    Iproute,
    Ifconfig,
    IfconfigNoexec,
    IfconfigNowarn,
    Route,
    RouteGateway,
    RouteMetric,
    RouteDelay,
    RouteUp,
    RoutePreDown,
    RouteNoexec,
    RouteNopull,
    AllowPullFqdn,
    ClientNat,
    RedirectGateway,
    LinkMtu,
    RedirectPrivate,
    TunMtu,
    TunMtuExtra,
    MtuDisc,
    MtuTest,
    Fragment,
    Mssfix,
    Sndbuf,
    Rcvbuf,
    Mark,
    SocketFlags,
    Txqueuelen,
    Shaper,
    Inactive,
    Ping,
    PingExit,
    PingRestart,
    Keepalive,
    PingTimerRem,
    PersistTun,
    PersistKey,
    PersistLocalIp,
    PersistRemoteIp,
    Mlock,
    Up,
    UpDelay,
    Down,
    DownPre,
    UpRestart,
    Setenv,
    SetenvSafe,
    IgnoreUnknownOption,
    ScriptSecurity,
    DisableOcc,
    User,
    Group,
    Cd,
    Chroot,
    Setcon,
    Daemon,
    Syslog,
    ErrorsToStderr,
    Passtos,
    Inetd,
    Log,
    LogAppend,
    SuppressTimestamps,
    MachineReadableOutput,
    Writepid,
    Nice,
    FastIo,
    Multihome,
    Echo,
    RemapUsr1,
    Verb,
    Status,
    StatusVersion,
    Mute,
    Compress,
    CompLzo,
    CompNoadapt,
    Management,
    ManagementClient,
    ManagementQueryPasswords,
    ManagementQueryProxy,
    ManagementQueryRemote,
    ManagementExternalKey,
    ManagementExternalCert,
    ManagementForgetDisconnect,
    ManagementHold,
    ManagementSignal,
    ManagementLogCache,
    ManagementUpDown,
    ManagementClientAuth,
    ManagementClientPf,
    ManagementClientUser,
    ManagementClientGroup,
    Plugin,
    KeyingMaterialExporter,
    Server,
    Push,
    PushReset,
    PushRemove,
    PushPeerInfo,
    Disable,
    IfconfigPool,
    IfconfigPoolPersist,
    IfconfigPoolLinear,
    IfconfigPush,
    Iroute,
    ClientToClient,
    DuplicateCn,
    ClientConnect,
    ClientDisconnect,
    ClientConfigDir,
    CcdExclusive,
    TmpDir,
    HashSize,
    BcastBuffers,
    TcpQueueLimit,
    TcpNodelay,
    MaxClients,
    MaxRoutesPerClient,
    StaleRoutesCheck,
    ConnectFreq,
    LearnAddress,
    AuthUserPassVerify,
    AuthGenToken,
    OptVerify,
    AuthUserPassOptional,
    ClientCertNotRequired,
    VerifyClientCert,
    UsernameAsCommonName,
    CompatNames,
    NoNameRemapping,
    PortShare,
    Client,
    Pull,
    PullFilter,
    AuthUserPass,
    AuthRetry,
    StaticChallenge,
    ServerPollTimeout,
    ConnectTimeout,
    ExplicitExitNotify,
    AllowRecursiveRouting,
    Secret,
    KeyDirection,
    Auth,
    Cipher,
    NcpCiphers,
    NcpDisable,
    Keysize,
    Prng,
    Engine,
    NoReplay,
    ReplayWindow,
    MuteReplayWarnings,
    ReplayPersist,
    NoIv,
    UsePredictionResistance,
    TestCrypto,
    TlsAuth,
    TlsServer,
    TlsClient,
    Ca,
    Capath,
    Dh,
    EcdhCurve,
    Cert,
    ExtraCerts,
    Key,
    TlsVersionMin,
    TlsVersionMax,
    Pkcs12,
    VerifyHash,
    Pkcs11CertPrivate,
    Pkcs11Id,
    Pkcs11IdManagement,
    Pkcs11PinCache,
    Pkcs11ProtectedAuthentication,
    Pkcs11Providers,
    Pkcs11PrivateMode,
    Cryptoapicert,
    KeyMethod,
    TlsCipher,
    TlsTimeout,
    RenegBytes,
    RenegPkts,
    RenegSec,
    HandWindow,
    TranWindow,
    SingleSession,
    TlsExit,
    TlsCrypt,
    Askpass,
    AuthNocache,
    AuthToken,
    TlsVerify,
    TlsExportCert,
    X509UsernameField,
    VerifyX509Name,
    X509Track,
    NsCertType,
    RemoteCertKu,
    RemoteCertEku,
    RemoteCertTls,
    CrlVerify,
    ShowCiphers,
    ShowDigests,
    ShowTls,
    ShowEngines,
    ShowCurves,
    Genkey,
    Mktun,
    Rmtun,
    WinSys,
    IpWin32,
    RouteMethod,
    DhcpOption,
    TapSleep,
    ShowNetUp,
    BlockOutsideDns,
    DhcpRenew,
    DhcpRelease,
    RegisterDns,
    PauseExit,
    Service,
    ShowAdapters,
    AllowNonadmin,
    ShowValidSubnets,
    ShowNet,
    ShowPkcs11Ids,
    ShowGateway,
    IfconfigIpv6,
    RouteIpv6,
    ServerIpv6,
    IfconfigIpv6Pool,
    IfconfigIpv6Push,
    IrouteIpv6,
    ServerBridge,
}

/// How a command consumes its argument tokens.
pub enum Shape {
    /// `required` positional arguments, then up to `optional` more.
    Fixed { required: nat, optional: nat },
    /// All supplied tokens, at least one, as one sequence.
    Varargs,
    /// All supplied tokens as one sequence, absent when there are none.
    OptionalVarargs,
    /// A file path, then up to `optional` positional arguments.
    InlineFile { optional: nat },
    /// The irregular two-arity rule of `server-bridge`.
    Bridge,
}

/// The shapes of the commands `help` through `show-proxy-settings`.
pub open spec fn shape_from_help(id: CommandId) -> Shape {
    match id {
        CommandId::Help => Shape::Fixed { required: 0, optional: 0 },
        CommandId::Config => Shape::Fixed { required: 1, optional: 0 },
        CommandId::Mode => Shape::Fixed { required: 1, optional: 0 },
        CommandId::Local => Shape::Fixed { required: 1, optional: 0 },
        CommandId::Remote => Shape::Fixed { required: 1, optional: 2 },
        CommandId::RemoteRandomHostname => Shape::Fixed { required: 0, optional: 0 },
        CommandId::ProtoForce => Shape::Fixed { required: 1, optional: 0 },
        CommandId::RemoteRandom => Shape::Fixed { required: 0, optional: 0 },
        CommandId::Proto => Shape::Fixed { required: 1, optional: 0 },
        CommandId::ConnectRetry => Shape::Fixed { required: 1, optional: 1 },
        CommandId::ConnectRetryMax => Shape::Fixed { required: 1, optional: 0 },
        CommandId::ShowProxySettings => Shape::Fixed { required: 0, optional: 0 },
        _ => shape_from_http_proxy(id),
    }
}

/// The shapes of the commands `http-proxy` through `nobind`.
pub open spec fn shape_from_http_proxy(id: CommandId) -> Shape {
    match id {
        CommandId::HttpProxy => Shape::Fixed { required: 2, optional: 2 },
        CommandId::HttpProxyOption => Shape::Fixed { required: 1, optional: 1 },
        CommandId::HttpProxyUserPass => Shape::InlineFile { optional: 0 },
        CommandId::SocksProxy => Shape::Fixed { required: 1, optional: 2 },
        CommandId::ResolvRetry => Shape::Fixed { required: 1, optional: 0 },
        CommandId::Float => Shape::Fixed { required: 0, optional: 0 },
        CommandId::Ipchange => Shape::Fixed { required: 1, optional: 0 },
        CommandId::Port => Shape::Fixed { required: 1, optional: 0 },
        CommandId::Lport => Shape::Fixed { required: 1, optional: 0 },
        CommandId::Rport => Shape::Fixed { required: 1, optional: 0 },
        CommandId::Bind => Shape::Fixed { required: 0, optional: 1 },
        CommandId::Nobind => Shape::Fixed { required: 0, optional: 0 },
        _ => shape_from_dev(id),
    }
}

/// The shapes of the commands `dev` through `route-metric`.
pub open spec fn shape_from_dev(id: CommandId) -> Shape {
    match id {
        CommandId::Dev => Shape::Fixed { required: 1, optional: 0 },
        CommandId::DevType => Shape::Fixed { required: 1, optional: 0 },
        CommandId::Topology => Shape::Fixed { required: 1, optional: 0 },
        CommandId::DevNode => Shape::Fixed { required: 1, optional: 0 },
        CommandId::Lladdr => Shape::Fixed { required: 1, optional: 0 },
        CommandId::Iproute => Shape::Fixed { required: 1, optional: 0 },
        CommandId::Ifconfig => Shape::Fixed { required: 2, optional: 0 },
        CommandId::IfconfigNoexec => Shape::Fixed { required: 0, optional: 0 },
        CommandId::IfconfigNowarn => Shape::Fixed { required: 0, optional: 0 },
        CommandId::Route => Shape::Fixed { required: 1, optional: 3 },
        CommandId::RouteGateway => Shape::Fixed { required: 1, optional: 0 },
        CommandId::RouteMetric => Shape::Fixed { required: 1, optional: 0 },
        _ => shape_from_route_delay(id),
    }
}

/// The shapes of the commands `route-delay` through `tun-mtu-extra`.
pub open spec fn shape_from_route_delay(id: CommandId) -> Shape {
    match id {
        CommandId::RouteDelay => Shape::Fixed { required: 0, optional: 2 },
        CommandId::RouteUp => Shape::Fixed { required: 1, optional: 0 },
        CommandId::RoutePreDown => Shape::Fixed { required: 1, optional: 0 },
        CommandId::RouteNoexec => Shape::Fixed { required: 0, optional: 0 },
        CommandId::RouteNopull => Shape::Fixed { required: 0, optional: 0 },
        CommandId::AllowPullFqdn => Shape::Fixed { required: 0, optional: 0 },
        CommandId::ClientNat => Shape::Fixed { required: 4, optional: 0 },
        CommandId::RedirectGateway => Shape::Varargs,
        CommandId::LinkMtu => Shape::Fixed { required: 1, optional: 0 },
        CommandId::RedirectPrivate => Shape::OptionalVarargs,
        CommandId::TunMtu => Shape::Fixed { required: 1, optional: 0 },
        CommandId::TunMtuExtra => Shape::Fixed { required: 1, optional: 0 },
        _ => shape_from_mtu_disc(id),
    }
}

/// The shapes of the commands `mtu-disc` through `ping`.
pub open spec fn shape_from_mtu_disc(id: CommandId) -> Shape {
    match id {
        CommandId::MtuDisc => Shape::Fixed { required: 1, optional: 0 },
        CommandId::MtuTest => Shape::Fixed { required: 0, optional: 0 },
        CommandId::Fragment => Shape::Fixed { required: 1, optional: 0 },
        CommandId::Mssfix => Shape::Fixed { required: 1, optional: 0 },
        CommandId::Sndbuf => Shape::Fixed { required: 1, optional: 0 },
        CommandId::Rcvbuf => Shape::Fixed { required: 1, optional: 0 },
        CommandId::Mark => Shape::Fixed { required: 1, optional: 0 },
        CommandId::SocketFlags => Shape::Varargs,
        CommandId::Txqueuelen => Shape::Fixed { required: 1, optional: 0 },
        CommandId::Shaper => Shape::Fixed { required: 1, optional: 0 },
        CommandId::Inactive => Shape::Fixed { required: 1, optional: 1 },
        CommandId::Ping => Shape::Fixed { required: 1, optional: 0 },
        _ => shape_from_ping_exit(id),
    }
}

/// The shapes of the commands `ping-exit` through `down`.
pub open spec fn shape_from_ping_exit(id: CommandId) -> Shape {
    match id {
        CommandId::PingExit => Shape::Fixed { required: 1, optional: 0 },
        CommandId::PingRestart => Shape::Fixed { required: 1, optional: 0 },
        CommandId::Keepalive => Shape::Fixed { required: 2, optional: 0 },
        CommandId::PingTimerRem => Shape::Fixed { required: 0, optional: 0 },
        CommandId::PersistTun => Shape::Fixed { required: 0, optional: 0 },
        CommandId::PersistKey => Shape::Fixed { required: 0, optional: 0 },
        CommandId::PersistLocalIp => Shape::Fixed { required: 0, optional: 0 },
        CommandId::PersistRemoteIp => Shape::Fixed { required: 0, optional: 0 },
        CommandId::Mlock => Shape::Fixed { required: 0, optional: 0 },
        CommandId::Up => Shape::Fixed { required: 1, optional: 0 },
        CommandId::UpDelay => Shape::Fixed { required: 0, optional: 0 },
        CommandId::Down => Shape::Fixed { required: 1, optional: 0 },
        _ => shape_from_down_pre(id),
    }
}

/// The shapes of the commands `down-pre` through `setcon`.
pub open spec fn shape_from_down_pre(id: CommandId) -> Shape {
    match id {
        CommandId::DownPre => Shape::Fixed { required: 0, optional: 0 },
        CommandId::UpRestart => Shape::Fixed { required: 0, optional: 0 },
        CommandId::Setenv => Shape::Fixed { required: 2, optional: 0 },
        CommandId::SetenvSafe => Shape::Fixed { required: 2, optional: 0 },
        CommandId::IgnoreUnknownOption => Shape::Varargs,
        CommandId::ScriptSecurity => Shape::Fixed { required: 1, optional: 0 },
        CommandId::DisableOcc => Shape::Fixed { required: 0, optional: 0 },
        CommandId::User => Shape::Fixed { required: 1, optional: 0 },
        CommandId::Group => Shape::Fixed { required: 1, optional: 0 },
        CommandId::Cd => Shape::Fixed { required: 1, optional: 0 },
        CommandId::Chroot => Shape::Fixed { required: 1, optional: 0 },
        CommandId::Setcon => Shape::Fixed { required: 1, optional: 0 },
        _ => shape_from_daemon(id),
    }
}

/// The shapes of the commands `daemon` through `fast-io`.
pub open spec fn shape_from_daemon(id: CommandId) -> Shape {
    match id {
        CommandId::Daemon => Shape::Fixed { required: 0, optional: 1 },
        CommandId::Syslog => Shape::Fixed { required: 0, optional: 1 },
        CommandId::ErrorsToStderr => Shape::Fixed { required: 0, optional: 0 },
        CommandId::Passtos => Shape::Fixed { required: 0, optional: 0 },
        CommandId::Inetd => Shape::Fixed { required: 0, optional: 2 },
        CommandId::Log => Shape::Fixed { required: 1, optional: 0 },
        CommandId::LogAppend => Shape::Fixed { required: 1, optional: 0 },
        CommandId::SuppressTimestamps => Shape::Fixed { required: 0, optional: 0 },
        CommandId::MachineReadableOutput => Shape::Fixed { required: 0, optional: 0 },
        CommandId::Writepid => Shape::Fixed { required: 1, optional: 0 },
        CommandId::Nice => Shape::Fixed { required: 1, optional: 0 },
        CommandId::FastIo => Shape::Fixed { required: 0, optional: 0 },
        _ => shape_from_multihome(id),
    }
}

/// The shapes of the commands `multihome` through `management-client`.
pub open spec fn shape_from_multihome(id: CommandId) -> Shape {
    match id {
        CommandId::Multihome => Shape::Fixed { required: 0, optional: 0 },
        CommandId::Echo => Shape::OptionalVarargs,
        CommandId::RemapUsr1 => Shape::Fixed { required: 1, optional: 0 },
        CommandId::Verb => Shape::Fixed { required: 1, optional: 0 },
        CommandId::Status => Shape::Fixed { required: 1, optional: 1 },
        CommandId::StatusVersion => Shape::Fixed { required: 0, optional: 1 },
        CommandId::Mute => Shape::Fixed { required: 1, optional: 0 },
        CommandId::Compress => Shape::Fixed { required: 0, optional: 1 },
        CommandId::CompLzo => Shape::Fixed { required: 0, optional: 1 },
        CommandId::CompNoadapt => Shape::Fixed { required: 0, optional: 0 },
        CommandId::Management => Shape::Fixed { required: 2, optional: 1 },
        CommandId::ManagementClient => Shape::Fixed { required: 0, optional: 0 },
        _ => shape_from_management_query_passwords(id),
    }
}

/// The shapes of the commands `management-query-passwords` through `management-client-pf`.
pub open spec fn shape_from_management_query_passwords(id: CommandId) -> Shape {
    match id {
        CommandId::ManagementQueryPasswords => Shape::Fixed { required: 0, optional: 0 },
        CommandId::ManagementQueryProxy => Shape::Fixed { required: 0, optional: 0 },
        CommandId::ManagementQueryRemote => Shape::Fixed { required: 0, optional: 0 },
        CommandId::ManagementExternalKey => Shape::Fixed { required: 0, optional: 0 },
        CommandId::ManagementExternalCert => Shape::Fixed { required: 1, optional: 0 },
        CommandId::ManagementForgetDisconnect => Shape::Fixed { required: 0, optional: 0 },
        CommandId::ManagementHold => Shape::Fixed { required: 0, optional: 0 },
        CommandId::ManagementSignal => Shape::Fixed { required: 0, optional: 0 },
        CommandId::ManagementLogCache => Shape::Fixed { required: 1, optional: 0 },
        CommandId::ManagementUpDown => Shape::Fixed { required: 0, optional: 0 },
        CommandId::ManagementClientAuth => Shape::Fixed { required: 0, optional: 0 },
        CommandId::ManagementClientPf => Shape::Fixed { required: 0, optional: 0 },
        _ => shape_from_management_client_user(id),
    }
}

/// The shapes of the commands `management-client-user` through `ifconfig-pool-persist`.
pub open spec fn shape_from_management_client_user(id: CommandId) -> Shape {
    match id {
        CommandId::ManagementClientUser => Shape::Fixed { required: 1, optional: 0 },
        CommandId::ManagementClientGroup => Shape::Fixed { required: 1, optional: 0 },
        CommandId::Plugin => Shape::Fixed { required: 1, optional: 1 },
        CommandId::KeyingMaterialExporter => Shape::Fixed { required: 2, optional: 0 },
        CommandId::Server => Shape::Fixed { required: 2, optional: 1 },
        CommandId::Push => Shape::Fixed { required: 1, optional: 0 },
        CommandId::PushReset => Shape::Fixed { required: 0, optional: 0 },
        CommandId::PushRemove => Shape::Fixed { required: 1, optional: 0 },
        CommandId::PushPeerInfo => Shape::Fixed { required: 0, optional: 0 },
        CommandId::Disable => Shape::Fixed { required: 0, optional: 0 },
        CommandId::IfconfigPool => Shape::Fixed { required: 2, optional: 1 },
        CommandId::IfconfigPoolPersist => Shape::Fixed { required: 1, optional: 1 },
        _ => shape_from_ifconfig_pool_linear(id),
    }
}

/// The shapes of the commands `ifconfig-pool-linear` through `bcast-buffers`.
pub open spec fn shape_from_ifconfig_pool_linear(id: CommandId) -> Shape {
    match id {
        CommandId::IfconfigPoolLinear => Shape::Fixed { required: 0, optional: 0 },
        CommandId::IfconfigPush => Shape::Fixed { required: 2, optional: 1 },
        CommandId::Iroute => Shape::Fixed { required: 1, optional: 1 },
        CommandId::ClientToClient => Shape::Fixed { required: 0, optional: 0 },
        CommandId::DuplicateCn => Shape::Fixed { required: 0, optional: 0 },
        CommandId::ClientConnect => Shape::Fixed { required: 1, optional: 0 },
        CommandId::ClientDisconnect => Shape::Fixed { required: 1, optional: 0 },
        CommandId::ClientConfigDir => Shape::Fixed { required: 1, optional: 0 },
        CommandId::CcdExclusive => Shape::Fixed { required: 0, optional: 0 },
        CommandId::TmpDir => Shape::Fixed { required: 1, optional: 0 },
        CommandId::HashSize => Shape::Fixed { required: 2, optional: 0 },
        CommandId::BcastBuffers => Shape::Fixed { required: 1, optional: 0 },
        _ => shape_from_tcp_queue_limit(id),
    }
}

/// The shapes of the commands `tcp-queue-limit` through `client-cert-not-required`.
pub open spec fn shape_from_tcp_queue_limit(id: CommandId) -> Shape {
    match id {
        CommandId::TcpQueueLimit => Shape::Fixed { required: 1, optional: 0 },
        CommandId::TcpNodelay => Shape::Fixed { required: 0, optional: 0 },
        CommandId::MaxClients => Shape::Fixed { required: 1, optional: 0 },
        CommandId::MaxRoutesPerClient => Shape::Fixed { required: 1, optional: 0 },
        CommandId::StaleRoutesCheck => Shape::Fixed { required: 1, optional: 1 },
        CommandId::ConnectFreq => Shape::Fixed { required: 2, optional: 0 },
        CommandId::LearnAddress => Shape::Fixed { required: 1, optional: 0 },
        CommandId::AuthUserPassVerify => Shape::Fixed { required: 2, optional: 0 },
        CommandId::AuthGenToken => Shape::Fixed { required: 0, optional: 1 },
        CommandId::OptVerify => Shape::Fixed { required: 0, optional: 0 },
        CommandId::AuthUserPassOptional => Shape::Fixed { required: 0, optional: 0 },
        CommandId::ClientCertNotRequired => Shape::Fixed { required: 0, optional: 0 },
        _ => shape_from_verify_client_cert(id),
    }
}

/// The shapes of the commands `verify-client-cert` through `server-poll-timeout`.
pub open spec fn shape_from_verify_client_cert(id: CommandId) -> Shape {
    match id {
        CommandId::VerifyClientCert => Shape::Fixed { required: 1, optional: 0 },
        CommandId::UsernameAsCommonName => Shape::Fixed { required: 0, optional: 0 },
        CommandId::CompatNames => Shape::Fixed { required: 0, optional: 1 },
        CommandId::NoNameRemapping => Shape::Fixed { required: 0, optional: 0 },
        CommandId::PortShare => Shape::Fixed { required: 2, optional: 1 },
        CommandId::Client => Shape::Fixed { required: 0, optional: 0 },
        CommandId::Pull => Shape::Fixed { required: 0, optional: 0 },
        CommandId::PullFilter => Shape::Fixed { required: 2, optional: 0 },
        CommandId::AuthUserPass => Shape::Fixed { required: 0, optional: 1 },
        CommandId::AuthRetry => Shape::Fixed { required: 1, optional: 0 },
        CommandId::StaticChallenge => Shape::Fixed { required: 2, optional: 0 },
        CommandId::ServerPollTimeout => Shape::Fixed { required: 1, optional: 0 },
        _ => shape_from_connect_timeout(id),
    }
}

/// The shapes of the commands `connect-timeout` through `engine`.
pub open spec fn shape_from_connect_timeout(id: CommandId) -> Shape {
    match id {
        CommandId::ConnectTimeout => Shape::Fixed { required: 1, optional: 0 },
        CommandId::ExplicitExitNotify => Shape::Fixed { required: 0, optional: 1 },
        CommandId::AllowRecursiveRouting => Shape::Fixed { required: 0, optional: 0 },
        CommandId::Secret => Shape::InlineFile { optional: 1 },
        CommandId::KeyDirection => Shape::Fixed { required: 1, optional: 0 },
        CommandId::Auth => Shape::Fixed { required: 1, optional: 0 },
        CommandId::Cipher => Shape::Fixed { required: 1, optional: 0 },
        CommandId::NcpCiphers => Shape::Fixed { required: 1, optional: 0 },
        CommandId::NcpDisable => Shape::Fixed { required: 0, optional: 0 },
        CommandId::Keysize => Shape::Fixed { required: 1, optional: 0 },
        CommandId::Prng => Shape::Fixed { required: 1, optional: 1 },
        CommandId::Engine => Shape::Fixed { required: 0, optional: 1 },
        _ => shape_from_no_replay(id),
    }
}

/// The shapes of the commands `no-replay` through `capath`.
pub open spec fn shape_from_no_replay(id: CommandId) -> Shape {
    match id {
        CommandId::NoReplay => Shape::Fixed { required: 0, optional: 0 },
        CommandId::ReplayWindow => Shape::Fixed { required: 1, optional: 1 },
        CommandId::MuteReplayWarnings => Shape::Fixed { required: 0, optional: 0 },
        CommandId::ReplayPersist => Shape::Fixed { required: 1, optional: 0 },
        CommandId::NoIv => Shape::Fixed { required: 0, optional: 0 },
        CommandId::UsePredictionResistance => Shape::Fixed { required: 0, optional: 0 },
        CommandId::TestCrypto => Shape::Fixed { required: 0, optional: 0 },
        CommandId::TlsAuth => Shape::InlineFile { optional: 1 },
        CommandId::TlsServer => Shape::Fixed { required: 0, optional: 0 },
        CommandId::TlsClient => Shape::Fixed { required: 0, optional: 0 },
        CommandId::Ca => Shape::InlineFile { optional: 0 },
        CommandId::Capath => Shape::Fixed { required: 1, optional: 0 },
        _ => shape_from_dh(id),
    }
}

/// The shapes of the commands `dh` through `pkcs11-id-management`.
pub open spec fn shape_from_dh(id: CommandId) -> Shape {
    match id {
        CommandId::Dh => Shape::InlineFile { optional: 0 },
        CommandId::EcdhCurve => Shape::Fixed { required: 1, optional: 0 },
        CommandId::Cert => Shape::InlineFile { optional: 0 },
        CommandId::ExtraCerts => Shape::InlineFile { optional: 0 },
        CommandId::Key => Shape::InlineFile { optional: 0 },
        CommandId::TlsVersionMin => Shape::Fixed { required: 1, optional: 1 },
        CommandId::TlsVersionMax => Shape::Fixed { required: 1, optional: 0 },
        CommandId::Pkcs12 => Shape::InlineFile { optional: 0 },
        CommandId::VerifyHash => Shape::Fixed { required: 1, optional: 0 },
        CommandId::Pkcs11CertPrivate => Shape::Varargs,
        CommandId::Pkcs11Id => Shape::Fixed { required: 1, optional: 0 },
        CommandId::Pkcs11IdManagement => Shape::Fixed { required: 0, optional: 0 },
        _ => shape_from_pkcs11_pin_cache(id),
    }
}

/// The shapes of the commands `pkcs11-pin-cache` through `hand-window`.
pub open spec fn shape_from_pkcs11_pin_cache(id: CommandId) -> Shape {
    match id {
        CommandId::Pkcs11PinCache => Shape::Fixed { required: 1, optional: 0 },
        CommandId::Pkcs11ProtectedAuthentication => Shape::Varargs,
        CommandId::Pkcs11Providers => Shape::Varargs,
        CommandId::Pkcs11PrivateMode => Shape::Varargs,
        CommandId::Cryptoapicert => Shape::Fixed { required: 1, optional: 0 },
        CommandId::KeyMethod => Shape::Fixed { required: 1, optional: 0 },
        CommandId::TlsCipher => Shape::Fixed { required: 1, optional: 0 },
        CommandId::TlsTimeout => Shape::Fixed { required: 1, optional: 0 },
        CommandId::RenegBytes => Shape::Fixed { required: 1, optional: 0 },
        CommandId::RenegPkts => Shape::Fixed { required: 1, optional: 0 },
        CommandId::RenegSec => Shape::Fixed { required: 1, optional: 0 },
        CommandId::HandWindow => Shape::Fixed { required: 1, optional: 0 },
        _ => shape_from_tran_window(id),
    }
}

/// The shapes of the commands `tran-window` through `x509-track`.
pub open spec fn shape_from_tran_window(id: CommandId) -> Shape {
    match id {
        CommandId::TranWindow => Shape::Fixed { required: 1, optional: 0 },
        CommandId::SingleSession => Shape::Fixed { required: 0, optional: 0 },
        CommandId::TlsExit => Shape::Fixed { required: 0, optional: 0 },
        CommandId::TlsCrypt => Shape::InlineFile { optional: 0 },
        CommandId::Askpass => Shape::Fixed { required: 0, optional: 1 },
        CommandId::AuthNocache => Shape::Fixed { required: 0, optional: 0 },
        CommandId::AuthToken => Shape::Fixed { required: 1, optional: 0 },
        CommandId::TlsVerify => Shape::Fixed { required: 1, optional: 0 },
        CommandId::TlsExportCert => Shape::Fixed { required: 1, optional: 0 },
        CommandId::X509UsernameField => Shape::Fixed { required: 1, optional: 0 },
        CommandId::VerifyX509Name => Shape::Fixed { required: 2, optional: 0 },
        CommandId::X509Track => Shape::Fixed { required: 1, optional: 0 },
        _ => shape_from_ns_cert_type(id),
    }
}

/// The shapes of the commands `ns-cert-type` through `mktun`.
pub open spec fn shape_from_ns_cert_type(id: CommandId) -> Shape {
    match id {
        CommandId::NsCertType => Shape::Fixed { required: 1, optional: 0 },
        CommandId::RemoteCertKu => Shape::Varargs,
        CommandId::RemoteCertEku => Shape::Fixed { required: 1, optional: 0 },
        CommandId::RemoteCertTls => Shape::Fixed { required: 1, optional: 0 },
        CommandId::CrlVerify => Shape::InlineFile { optional: 1 },
        CommandId::ShowCiphers => Shape::Fixed { required: 0, optional: 0 },
        CommandId::ShowDigests => Shape::Fixed { required: 0, optional: 0 },
        CommandId::ShowTls => Shape::Fixed { required: 0, optional: 0 },
        CommandId::ShowEngines => Shape::Fixed { required: 0, optional: 0 },
        CommandId::ShowCurves => Shape::Fixed { required: 0, optional: 0 },
        CommandId::Genkey => Shape::Fixed { required: 0, optional: 0 },
        CommandId::Mktun => Shape::Fixed { required: 0, optional: 0 },
        _ => shape_from_rmtun(id),
    }
}

/// The shapes of the commands `rmtun` through `pause-exit`.
pub open spec fn shape_from_rmtun(id: CommandId) -> Shape {
    match id {
        CommandId::Rmtun => Shape::Fixed { required: 0, optional: 0 },
        CommandId::WinSys => Shape::Fixed { required: 1, optional: 0 },
        CommandId::IpWin32 => Shape::Fixed { required: 1, optional: 0 },
        CommandId::RouteMethod => Shape::Fixed { required: 1, optional: 0 },
        CommandId::DhcpOption => Shape::Fixed { required: 1, optional: 1 },
        CommandId::TapSleep => Shape::Fixed { required: 1, optional: 0 },
        CommandId::ShowNetUp => Shape::Fixed { required: 0, optional: 0 },
        CommandId::BlockOutsideDns => Shape::Fixed { required: 0, optional: 0 },
        CommandId::DhcpRenew => Shape::Fixed { required: 0, optional: 0 },
        CommandId::DhcpRelease => Shape::Fixed { required: 0, optional: 0 },
        CommandId::RegisterDns => Shape::Fixed { required: 0, optional: 0 },
        CommandId::PauseExit => Shape::Fixed { required: 0, optional: 0 },
        _ => shape_from_service(id),
    }
}

/// The shapes of the commands `service` through `ifconfig-ipv6-push`.
pub open spec fn shape_from_service(id: CommandId) -> Shape {
    match id {
        CommandId::Service => Shape::Fixed { required: 1, optional: 1 },
        CommandId::ShowAdapters => Shape::Fixed { required: 0, optional: 0 },
        CommandId::AllowNonadmin => Shape::Fixed { required: 0, optional: 1 },
        CommandId::ShowValidSubnets => Shape::Fixed { required: 0, optional: 0 },
        CommandId::ShowNet => Shape::Fixed { required: 0, optional: 0 },
        CommandId::ShowPkcs11Ids => Shape::Fixed { required: 0, optional: 2 },
        CommandId::ShowGateway => Shape::Fixed { required: 0, optional: 1 },
        CommandId::IfconfigIpv6 => Shape::Fixed { required: 2, optional: 0 },
        CommandId::RouteIpv6 => Shape::Fixed { required: 1, optional: 2 },
        CommandId::ServerIpv6 => Shape::Fixed { required: 1, optional: 0 },
        CommandId::IfconfigIpv6Pool => Shape::Fixed { required: 1, optional: 0 },
        CommandId::IfconfigIpv6Push => Shape::Fixed { required: 2, optional: 0 },
        _ => shape_from_iroute_ipv6(id),
    }
}

/// The shapes of the commands `iroute-ipv6` through `server-bridge`.
pub open spec fn shape_from_iroute_ipv6(id: CommandId) -> Shape {
    match id {
        CommandId::IrouteIpv6 => Shape::Fixed { required: 1, optional: 0 },
        CommandId::ServerBridge => Shape::Bridge,
        _ => arbitrary(),
    }
}

/// The registered argument shape of each command.
pub open spec fn shape_of(id: CommandId) -> Shape {
    shape_from_help(id)
}

/// Registry lookup among the commands `help` through `show-proxy-settings`.
#[verifier::opaque]
pub open spec fn command_id_from_help(cmd: Seq<char>) -> Option<CommandId> {
    if cmd == "help"@ {
        Some(CommandId::Help)
    } else if cmd == "config"@ {
        Some(CommandId::Config)
    } else if cmd == "mode"@ {
        Some(CommandId::Mode)
    } else if cmd == "local"@ {
        Some(CommandId::Local)
    } else if cmd == "remote"@ {
        Some(CommandId::Remote)
    } else if cmd == "remote-random-hostname"@ {
        Some(CommandId::RemoteRandomHostname)
    } else if cmd == "proto-force"@ {
        Some(CommandId::ProtoForce)
    } else if cmd == "remote-random"@ {
        Some(CommandId::RemoteRandom)
    } else if cmd == "proto"@ {
        Some(CommandId::Proto)
    } else if cmd == "connect-retry"@ {
        Some(CommandId::ConnectRetry)
    } else if cmd == "connect-retry-max"@ {
        Some(CommandId::ConnectRetryMax)
    } else if cmd == "show-proxy-settings"@ {
        Some(CommandId::ShowProxySettings)
    } else {
        command_id_from_http_proxy(cmd)
    }
}

/// Registry lookup among the commands `http-proxy` through `nobind`.
#[verifier::opaque]
pub open spec fn command_id_from_http_proxy(cmd: Seq<char>) -> Option<CommandId> {
    if cmd == "http-proxy"@ {
        Some(CommandId::HttpProxy)
    } else if cmd == "http-proxy-option"@ {
        Some(CommandId::HttpProxyOption)
    } else if cmd == "http-proxy-user-type"@ {
        Some(CommandId::HttpProxyUserPass)
    } else if cmd == "socks-proxy"@ {
        Some(CommandId::SocksProxy)
    } else if cmd == "resolv-retry"@ {
        Some(CommandId::ResolvRetry)
    } else if cmd == "float"@ {
        Some(CommandId::Float)
    } else if cmd == "ipchange"@ {
        Some(CommandId::Ipchange)
    } else if cmd == "port"@ {
        Some(CommandId::Port)
    } else if cmd == "lport"@ {
        Some(CommandId::Lport)
    } else if cmd == "rport"@ {
        Some(CommandId::Rport)
    } else if cmd == "bind"@ {
        Some(CommandId::Bind)
    } else if cmd == "nobind"@ {
        Some(CommandId::Nobind)
    } else {
        command_id_from_dev(cmd)
    }
}

/// Registry lookup among the commands `dev` through `route-metric`.
#[verifier::opaque]
pub open spec fn command_id_from_dev(cmd: Seq<char>) -> Option<CommandId> {
    if cmd == "dev"@ {
        Some(CommandId::Dev)
    } else if cmd == "dev-type"@ {
        Some(CommandId::DevType)
    } else if cmd == "topology"@ {
        Some(CommandId::Topology)
    } else if cmd == "dev-node"@ {
        Some(CommandId::DevNode)
    } else if cmd == "lladdr"@ {
        Some(CommandId::Lladdr)
    } else if cmd == "iproute"@ {
        Some(CommandId::Iproute)
    } else if cmd == "ifconfig"@ {
        Some(CommandId::Ifconfig)
    } else if cmd == "ifconfig-noexec"@ {
        Some(CommandId::IfconfigNoexec)
    } else if cmd == "ifconfig-nowarn"@ {
        Some(CommandId::IfconfigNowarn)
    } else if cmd == "route"@ {
        Some(CommandId::Route)
    } else if cmd == "route-gateway"@ {
        Some(CommandId::RouteGateway)
    } else if cmd == "route-metric"@ {
        Some(CommandId::RouteMetric)
    } else {
        command_id_from_route_delay(cmd)
    }
}

/// Registry lookup among the commands `route-delay` through `tun-mtu-extra`.
#[verifier::opaque]
pub open spec fn command_id_from_route_delay(cmd: Seq<char>) -> Option<CommandId> {
    if cmd == "route-delay"@ {
        Some(CommandId::RouteDelay)
    } else if cmd == "route-up"@ {
        Some(CommandId::RouteUp)
    } else if cmd == "route-pre-down"@ {
        Some(CommandId::RoutePreDown)
    } else if cmd == "route-noexec"@ {
        Some(CommandId::RouteNoexec)
    } else if cmd == "route-nopull"@ {
        Some(CommandId::RouteNopull)
    } else if cmd == "allow-pull-fqdn"@ {
        Some(CommandId::AllowPullFqdn)
    } else if cmd == "client-nat"@ {
        Some(CommandId::ClientNat)
    } else if cmd == "redirect-gateway"@ {
        Some(CommandId::RedirectGateway)
    } else if cmd == "link-mtu"@ {
        Some(CommandId::LinkMtu)
    } else if cmd == "redirect-private"@ {
        Some(CommandId::RedirectPrivate)
    } else if cmd == "tun-mtu"@ {
        Some(CommandId::TunMtu)
    } else if cmd == "tun-mtu-extra"@ {
        Some(CommandId::TunMtuExtra)
    } else {
        command_id_from_mtu_disc(cmd)
    }
}

/// Registry lookup among the commands `mtu-disc` through `ping`.
#[verifier::opaque]
pub open spec fn command_id_from_mtu_disc(cmd: Seq<char>) -> Option<CommandId> {
    if cmd == "mtu-disc"@ {
        Some(CommandId::MtuDisc)
    } else if cmd == "mtu-test"@ {
        Some(CommandId::MtuTest)
    } else if cmd == "fragment"@ {
        Some(CommandId::Fragment)
    } else if cmd == "mssfix"@ {
        Some(CommandId::Mssfix)
    } else if cmd == "sndbuf"@ {
        Some(CommandId::Sndbuf)
    } else if cmd == "rcvbuf"@ {
        Some(CommandId::Rcvbuf)
    } else if cmd == "mark"@ {
        Some(CommandId::Mark)
    } else if cmd == "socket-flags"@ {
        Some(CommandId::SocketFlags)
    } else if cmd == "txqueuelen"@ {
        Some(CommandId::Txqueuelen)
    } else if cmd == "shaper"@ {
        Some(CommandId::Shaper)
    } else if cmd == "inactive"@ {
        Some(CommandId::Inactive)
    } else if cmd == "ping"@ {
        Some(CommandId::Ping)
    } else {
        command_id_from_ping_exit(cmd)
    }
}

/// Registry lookup among the commands `ping-exit` through `down`.
#[verifier::opaque]
pub open spec fn command_id_from_ping_exit(cmd: Seq<char>) -> Option<CommandId> {
    if cmd == "ping-exit"@ {
        Some(CommandId::PingExit)
    } else if cmd == "ping-restart"@ {
        Some(CommandId::PingRestart)
    } else if cmd == "keepalive"@ {
        Some(CommandId::Keepalive)
    } else if cmd == "ping-timer-rem"@ {
        Some(CommandId::PingTimerRem)
    } else if cmd == "persist-tun"@ {
        Some(CommandId::PersistTun)
    } else if cmd == "persist-key"@ {
        Some(CommandId::PersistKey)
    } else if cmd == "persist-local-ip"@ {
        Some(CommandId::PersistLocalIp)
    } else if cmd == "persist-remote-ip"@ {
        Some(CommandId::PersistRemoteIp)
    } else if cmd == "mlock"@ {
        Some(CommandId::Mlock)
    } else if cmd == "up"@ {
        Some(CommandId::Up)
    } else if cmd == "up-delay"@ {
        Some(CommandId::UpDelay)
    } else if cmd == "down"@ {
        Some(CommandId::Down)
    } else {
        command_id_from_down_pre(cmd)
    }
}

/// Registry lookup among the commands `down-pre` through `setcon`.
#[verifier::opaque]
pub open spec fn command_id_from_down_pre(cmd: Seq<char>) -> Option<CommandId> {
    if cmd == "down-pre"@ {
        Some(CommandId::DownPre)
    } else if cmd == "up-restart"@ {
        Some(CommandId::UpRestart)
    } else if cmd == "setenv"@ {
        Some(CommandId::Setenv)
    } else if cmd == "setenv-safe"@ {
        Some(CommandId::SetenvSafe)
    } else if cmd == "ignore-unknown-option"@ {
        Some(CommandId::IgnoreUnknownOption)
    } else if cmd == "script-security"@ {
        Some(CommandId::ScriptSecurity)
    } else if cmd == "disable-occ"@ {
        Some(CommandId::DisableOcc)
    } else if cmd == "user"@ {
        Some(CommandId::User)
    } else if cmd == "group"@ {
        Some(CommandId::Group)
    } else if cmd == "cd"@ {
        Some(CommandId::Cd)
    } else if cmd == "chroot"@ {
        Some(CommandId::Chroot)
    } else if cmd == "setcon"@ {
        Some(CommandId::Setcon)
    } else {
        command_id_from_daemon(cmd)
    }
}

/// Registry lookup among the commands `daemon` through `fast-io`.
#[verifier::opaque]
pub open spec fn command_id_from_daemon(cmd: Seq<char>) -> Option<CommandId> {
    if cmd == "daemon"@ {
        Some(CommandId::Daemon)
    } else if cmd == "syslog"@ {
        Some(CommandId::Syslog)
    } else if cmd == "errors-to-stderr"@ {
        Some(CommandId::ErrorsToStderr)
    } else if cmd == "passtos"@ {
        Some(CommandId::Passtos)
    } else if cmd == "inetd"@ {
        Some(CommandId::Inetd)
    } else if cmd == "log"@ {
        Some(CommandId::Log)
    } else if cmd == "log-append"@ {
        Some(CommandId::LogAppend)
    } else if cmd == "suppress-timestamps"@ {
        Some(CommandId::SuppressTimestamps)
    } else if cmd == "machine-readable-output"@ {
        Some(CommandId::MachineReadableOutput)
    } else if cmd == "writepid"@ {
        Some(CommandId::Writepid)
    } else if cmd == "nice"@ {
        Some(CommandId::Nice)
    } else if cmd == "fast-io"@ {
        Some(CommandId::FastIo)
    } else {
        command_id_from_multihome(cmd)
    }
}

/// Registry lookup among the commands `multihome` through `management-client`.
#[verifier::opaque]
pub open spec fn command_id_from_multihome(cmd: Seq<char>) -> Option<CommandId> {
    if cmd == "multihome"@ {
        Some(CommandId::Multihome)
    } else if cmd == "echo"@ {
        Some(CommandId::Echo)
    } else if cmd == "remap-usr1"@ {
        Some(CommandId::RemapUsr1)
    } else if cmd == "verb"@ {
        Some(CommandId::Verb)
    } else if cmd == "status"@ {
        Some(CommandId::Status)
    } else if cmd == "status-version"@ {
        Some(CommandId::StatusVersion)
    } else if cmd == "mute"@ {
        Some(CommandId::Mute)
    } else if cmd == "compress"@ {
        Some(CommandId::Compress)
    } else if cmd == "comp-lzo"@ {
        Some(CommandId::CompLzo)
    } else if cmd == "comp-noadapt"@ {
        Some(CommandId::CompNoadapt)
    } else if cmd == "management"@ {
        Some(CommandId::Management)
    } else if cmd == "management-client"@ {
        Some(CommandId::ManagementClient)
    } else {
        command_id_from_management_query_passwords(cmd)
    }
}

/// Registry lookup among the commands `management-query-passwords` through `management-client-pf`.
#[verifier::opaque]
pub open spec fn command_id_from_management_query_passwords(cmd: Seq<char>) -> Option<CommandId> {
    if cmd == "management-query-passwords"@ {
        Some(CommandId::ManagementQueryPasswords)
    } else if cmd == "management-query-proxy"@ {
        Some(CommandId::ManagementQueryProxy)
    } else if cmd == "management-query-remote"@ {
        Some(CommandId::ManagementQueryRemote)
    } else if cmd == "management-external-key"@ {
        Some(CommandId::ManagementExternalKey)
    } else if cmd == "management-external-cert"@ {
        Some(CommandId::ManagementExternalCert)
    } else if cmd == "management-forget-disconnect"@ {
        Some(CommandId::ManagementForgetDisconnect)
    } else if cmd == "management-hold"@ {
        Some(CommandId::ManagementHold)
    } else if cmd == "management-signal"@ {
        Some(CommandId::ManagementSignal)
    } else if cmd == "management-log-cache"@ {
        Some(CommandId::ManagementLogCache)
    } else if cmd == "management-up-down"@ {
        Some(CommandId::ManagementUpDown)
    } else if cmd == "management-client-auth"@ {
        Some(CommandId::ManagementClientAuth)
    } else if cmd == "management-client-pf"@ {
        Some(CommandId::ManagementClientPf)
    } else {
        command_id_from_management_client_user(cmd)
    }
}

/// Registry lookup among the commands `management-client-user` through `ifconfig-pool-persist`.
#[verifier::opaque]
pub open spec fn command_id_from_management_client_user(cmd: Seq<char>) -> Option<CommandId> {
    if cmd == "management-client-user"@ {
        Some(CommandId::ManagementClientUser)
    } else if cmd == "management-client-group"@ {
        Some(CommandId::ManagementClientGroup)
    } else if cmd == "plugin"@ {
        Some(CommandId::Plugin)
    } else if cmd == "keying-material-exporter"@ {
        Some(CommandId::KeyingMaterialExporter)
    } else if cmd == "server"@ {
        Some(CommandId::Server)
    } else if cmd == "push"@ {
        Some(CommandId::Push)
    } else if cmd == "push-reset"@ {
        Some(CommandId::PushReset)
    } else if cmd == "push-remove"@ {
        Some(CommandId::PushRemove)
    } else if cmd == "push-peer-info"@ {
        Some(CommandId::PushPeerInfo)
    } else if cmd == "disable"@ {
        Some(CommandId::Disable)
    } else if cmd == "ifconfig-pool"@ {
        Some(CommandId::IfconfigPool)
    } else if cmd == "ifconfig-pool-persist"@ {
        Some(CommandId::IfconfigPoolPersist)
    } else {
        command_id_from_ifconfig_pool_linear(cmd)
    }
}

/// Registry lookup among the commands `ifconfig-pool-linear` through `bcast-buffers`.
#[verifier::opaque]
pub open spec fn command_id_from_ifconfig_pool_linear(cmd: Seq<char>) -> Option<CommandId> {
    if cmd == "ifconfig-pool-linear"@ {
        Some(CommandId::IfconfigPoolLinear)
    } else if cmd == "ifconfig-push"@ {
        Some(CommandId::IfconfigPush)
    } else if cmd == "iroute"@ {
        Some(CommandId::Iroute)
    } else if cmd == "client-to-client"@ {
        Some(CommandId::ClientToClient)
    } else if cmd == "duplicate-cn"@ {
        Some(CommandId::DuplicateCn)
    } else if cmd == "client-connect"@ {
        Some(CommandId::ClientConnect)
    } else if cmd == "client-disconnect"@ {
        Some(CommandId::ClientDisconnect)
    } else if cmd == "client-config-dir"@ {
        Some(CommandId::ClientConfigDir)
    } else if cmd == "ccd-exclusive"@ {
        Some(CommandId::CcdExclusive)
    } else if cmd == "tmp-dir"@ {
        Some(CommandId::TmpDir)
    } else if cmd == "hash-size"@ {
        Some(CommandId::HashSize)
    } else if cmd == "bcast-buffers"@ {
        Some(CommandId::BcastBuffers)
    } else {
        command_id_from_tcp_queue_limit(cmd)
    }
}

/// Registry lookup among the commands `tcp-queue-limit` through `client-cert-not-required`.
#[verifier::opaque]
pub open spec fn command_id_from_tcp_queue_limit(cmd: Seq<char>) -> Option<CommandId> {
    if cmd == "tcp-queue-limit"@ {
        Some(CommandId::TcpQueueLimit)
    } else if cmd == "tcp-nodelay"@ {
        Some(CommandId::TcpNodelay)
    } else if cmd == "max-clients"@ {
        Some(CommandId::MaxClients)
    } else if cmd == "max-routes-per-client"@ {
        Some(CommandId::MaxRoutesPerClient)
    } else if cmd == "stale-routes-check"@ {
        Some(CommandId::StaleRoutesCheck)
    } else if cmd == "connect-freq"@ {
        Some(CommandId::ConnectFreq)
    } else if cmd == "learn-address"@ {
        Some(CommandId::LearnAddress)
    } else if cmd == "auth-user-pass-verify"@ {
        Some(CommandId::AuthUserPassVerify)
    } else if cmd == "auth-gen-token"@ {
        Some(CommandId::AuthGenToken)
    } else if cmd == "opt-verify"@ {
        Some(CommandId::OptVerify)
    } else if cmd == "auth-user-pass-optional"@ {
        Some(CommandId::AuthUserPassOptional)
    } else if cmd == "client-cert-not-required"@ {
        Some(CommandId::ClientCertNotRequired)
    } else {
        command_id_from_verify_client_cert(cmd)
    }
}

/// Registry lookup among the commands `verify-client-cert` through `server-poll-timeout`.
#[verifier::opaque]
pub open spec fn command_id_from_verify_client_cert(cmd: Seq<char>) -> Option<CommandId> {
    if cmd == "verify-client-cert"@ {
        Some(CommandId::VerifyClientCert)
    } else if cmd == "username-as-common-name"@ {
        Some(CommandId::UsernameAsCommonName)
    } else if cmd == "compat-names"@ {
        Some(CommandId::CompatNames)
    } else if cmd == "no-name-remapping"@ {
        Some(CommandId::NoNameRemapping)
    } else if cmd == "port-share"@ {
        Some(CommandId::PortShare)
    } else if cmd == "client"@ {
        Some(CommandId::Client)
    } else if cmd == "pull"@ {
        Some(CommandId::Pull)
    } else if cmd == "pull-filter"@ {
        Some(CommandId::PullFilter)
    } else if cmd == "auth-user-pass"@ {
        Some(CommandId::AuthUserPass)
    } else if cmd == "auth-retry"@ {
        Some(CommandId::AuthRetry)
    } else if cmd == "static-challenge"@ {
        Some(CommandId::StaticChallenge)
    } else if cmd == "server-poll-timeout"@ {
        Some(CommandId::ServerPollTimeout)
    } else {
        command_id_from_connect_timeout(cmd)
    }
}

/// Registry lookup among the commands `connect-timeout` through `engine`.
#[verifier::opaque]
pub open spec fn command_id_from_connect_timeout(cmd: Seq<char>) -> Option<CommandId> {
    if cmd == "connect-timeout"@ {
        Some(CommandId::ConnectTimeout)
    } else if cmd == "explicit-exit-notify"@ {
        Some(CommandId::ExplicitExitNotify)
    } else if cmd == "allow-recursive-routing"@ {
        Some(CommandId::AllowRecursiveRouting)
    } else if cmd == "secret"@ {
        Some(CommandId::Secret)
    } else if cmd == "key-direction"@ {
        Some(CommandId::KeyDirection)
    } else if cmd == "auth"@ {
        Some(CommandId::Auth)
    } else if cmd == "cipher"@ {
        Some(CommandId::Cipher)
    } else if cmd == "ncp-ciphers"@ {
        Some(CommandId::NcpCiphers)
    } else if cmd == "ncp-disable"@ {
        Some(CommandId::NcpDisable)
    } else if cmd == "keysize"@ {
        Some(CommandId::Keysize)
    } else if cmd == "prng"@ {
        Some(CommandId::Prng)
    } else if cmd == "engine"@ {
        Some(CommandId::Engine)
    } else {
        command_id_from_no_replay(cmd)
    }
}

/// Registry lookup among the commands `no-replay` through `capath`.
#[verifier::opaque]
pub open spec fn command_id_from_no_replay(cmd: Seq<char>) -> Option<CommandId> {
    if cmd == "no-replay"@ {
        Some(CommandId::NoReplay)
    } else if cmd == "replay-window"@ {
        Some(CommandId::ReplayWindow)
    } else if cmd == "mute-replay-warnings"@ {
        Some(CommandId::MuteReplayWarnings)
    } else if cmd == "replay-persist"@ {
        Some(CommandId::ReplayPersist)
    } else if cmd == "no-iv"@ {
        Some(CommandId::NoIv)
    } else if cmd == "use-prediction-resistance"@ {
        Some(CommandId::UsePredictionResistance)
    } else if cmd == "test-crypto"@ {
        Some(CommandId::TestCrypto)
    } else if cmd == "tls-auth"@ {
        Some(CommandId::TlsAuth)
    } else if cmd == "tls-server"@ {
        Some(CommandId::TlsServer)
    } else if cmd == "tls-client"@ {
        Some(CommandId::TlsClient)
    } else if cmd == "ca"@ {
        Some(CommandId::Ca)
    } else if cmd == "capath"@ {
        Some(CommandId::Capath)
    } else {
        command_id_from_dh(cmd)
    }
}

/// Registry lookup among the commands `dh` through `pkcs11-id-management`.
#[verifier::opaque]
pub open spec fn command_id_from_dh(cmd: Seq<char>) -> Option<CommandId> {
    if cmd == "dh"@ {
        Some(CommandId::Dh)
    } else if cmd == "ecdh-curve"@ {
        Some(CommandId::EcdhCurve)
    } else if cmd == "cert"@ {
        Some(CommandId::Cert)
    } else if cmd == "extra-certs"@ {
        Some(CommandId::ExtraCerts)
    } else if cmd == "key"@ {
        Some(CommandId::Key)
    } else if cmd == "tls-version-min"@ {
        Some(CommandId::TlsVersionMin)
    } else if cmd == "tls-version-max"@ {
        Some(CommandId::TlsVersionMax)
    } else if cmd == "pkcs12"@ {
        Some(CommandId::Pkcs12)
    } else if cmd == "verify-hash"@ {
        Some(CommandId::VerifyHash)
    } else if cmd == "pkcs11-cert-private"@ {
        Some(CommandId::Pkcs11CertPrivate)
    } else if cmd == "pkcs11-id"@ {
        Some(CommandId::Pkcs11Id)
    } else if cmd == "pkcs11-id-management"@ {
        Some(CommandId::Pkcs11IdManagement)
    } else {
        command_id_from_pkcs11_pin_cache(cmd)
    }
}

/// Registry lookup among the commands `pkcs11-pin-cache` through `hand-window`.
#[verifier::opaque]
pub open spec fn command_id_from_pkcs11_pin_cache(cmd: Seq<char>) -> Option<CommandId> {
    if cmd == "pkcs11-pin-cache"@ {
        Some(CommandId::Pkcs11PinCache)
    } else if cmd == "pkcs11-protected-authentication"@ {
        Some(CommandId::Pkcs11ProtectedAuthentication)
    } else if cmd == "pkcs11-providers"@ {
        Some(CommandId::Pkcs11Providers)
    } else if cmd == "pkcs11-private-mode"@ {
        Some(CommandId::Pkcs11PrivateMode)
    } else if cmd == "cryptoapicert"@ {
        Some(CommandId::Cryptoapicert)
    } else if cmd == "key-method"@ {
        Some(CommandId::KeyMethod)
    } else if cmd == "tls-cipher"@ {
        Some(CommandId::TlsCipher)
    } else if cmd == "tls-timeout"@ {
        Some(CommandId::TlsTimeout)
    } else if cmd == "reneg-bytes"@ {
        Some(CommandId::RenegBytes)
    } else if cmd == "reneg-pkts"@ {
        Some(CommandId::RenegPkts)
    } else if cmd == "reneg-sec"@ {
        Some(CommandId::RenegSec)
    } else if cmd == "hand-window"@ {
        Some(CommandId::HandWindow)
    } else {
        command_id_from_tran_window(cmd)
    }
}

/// Registry lookup among the commands `tran-window` through `x509-track`.
#[verifier::opaque]
pub open spec fn command_id_from_tran_window(cmd: Seq<char>) -> Option<CommandId> {
    if cmd == "tran-window"@ {
        Some(CommandId::TranWindow)
    } else if cmd == "single-session"@ {
        Some(CommandId::SingleSession)
    } else if cmd == "tls-exit"@ {
        Some(CommandId::TlsExit)
    } else if cmd == "tls-crypt"@ {
        Some(CommandId::TlsCrypt)
    } else if cmd == "askpass"@ {
        Some(CommandId::Askpass)
    } else if cmd == "auth-nocache"@ {
        Some(CommandId::AuthNocache)
    } else if cmd == "auth-token"@ {
        Some(CommandId::AuthToken)
    } else if cmd == "tls-verify"@ {
        Some(CommandId::TlsVerify)
    } else if cmd == "tls-export-cert"@ {
        Some(CommandId::TlsExportCert)
    } else if cmd == "x509-username-field"@ {
        Some(CommandId::X509UsernameField)
    } else if cmd == "verify-x509-name"@ {
        Some(CommandId::VerifyX509Name)
    } else if cmd == "x509-track"@ {
        Some(CommandId::X509Track)
    } else {
        command_id_from_ns_cert_type(cmd)
    }
}

/// Registry lookup among the commands `ns-cert-type` through `mktun`.
#[verifier::opaque]
pub open spec fn command_id_from_ns_cert_type(cmd: Seq<char>) -> Option<CommandId> {
    if cmd == "ns-cert-type"@ {
        Some(CommandId::NsCertType)
    } else if cmd == "remote-cert-ku"@ {
        Some(CommandId::RemoteCertKu)
    } else if cmd == "remote-cert-eku"@ {
        Some(CommandId::RemoteCertEku)
    } else if cmd == "remote-cert-tls"@ {
        Some(CommandId::RemoteCertTls)
    } else if cmd == "crl-verify"@ {
        Some(CommandId::CrlVerify)
    } else if cmd == "show-ciphers"@ {
        Some(CommandId::ShowCiphers)
    } else if cmd == "show-digests"@ {
        Some(CommandId::ShowDigests)
    } else if cmd == "show-tls"@ {
        Some(CommandId::ShowTls)
    } else if cmd == "show-engines"@ {
        Some(CommandId::ShowEngines)
    } else if cmd == "show-curves"@ {
        Some(CommandId::ShowCurves)
    } else if cmd == "genkey"@ {
        Some(CommandId::Genkey)
    } else if cmd == "mktun"@ {
        Some(CommandId::Mktun)
    } else {
        command_id_from_rmtun(cmd)
    }
}

/// Registry lookup among the commands `rmtun` through `pause-exit`.
#[verifier::opaque]
pub open spec fn command_id_from_rmtun(cmd: Seq<char>) -> Option<CommandId> {
    if cmd == "rmtun"@ {
        Some(CommandId::Rmtun)
    } else if cmd == "win-sys"@ {
        Some(CommandId::WinSys)
    } else if cmd == "ip-win32"@ {
        Some(CommandId::IpWin32)
    } else if cmd == "route-method"@ {
        Some(CommandId::RouteMethod)
    } else if cmd == "dhcp-option"@ {
        Some(CommandId::DhcpOption)
    } else if cmd == "tap-sleep"@ {
        Some(CommandId::TapSleep)
    } else if cmd == "show-net-up"@ {
        Some(CommandId::ShowNetUp)
    } else if cmd == "block-outside-dns"@ {
        Some(CommandId::BlockOutsideDns)
    } else if cmd == "dhcp-renew"@ {
        Some(CommandId::DhcpRenew)
    } else if cmd == "dhcp-release"@ {
        Some(CommandId::DhcpRelease)
    } else if cmd == "register-dns"@ {
        Some(CommandId::RegisterDns)
    } else if cmd == "pause-exit"@ {
        Some(CommandId::PauseExit)
    } else {
        command_id_from_service(cmd)
    }
}

/// Registry lookup among the commands `service` through `ifconfig-ipv6-push`.
#[verifier::opaque]
pub open spec fn command_id_from_service(cmd: Seq<char>) -> Option<CommandId> {
    if cmd == "service"@ {
        Some(CommandId::Service)
    } else if cmd == "show-adapters"@ {
        Some(CommandId::ShowAdapters)
    } else if cmd == "allow-nonadmin"@ {
        Some(CommandId::AllowNonadmin)
    } else if cmd == "show-valid-subnets"@ {
        Some(CommandId::ShowValidSubnets)
    } else if cmd == "show-net"@ {
        Some(CommandId::ShowNet)
    } else if cmd == "show-pkcs11-ids"@ {
        Some(CommandId::ShowPkcs11Ids)
    } else if cmd == "show-gateway"@ {
        Some(CommandId::ShowGateway)
    } else if cmd == "ifconfig-ipv6"@ {
        Some(CommandId::IfconfigIpv6)
    } else if cmd == "route-ipv6"@ {
        Some(CommandId::RouteIpv6)
    } else if cmd == "server-ipv6"@ {
        Some(CommandId::ServerIpv6)
    } else if cmd == "ifconfig-ipv6-pool"@ {
        Some(CommandId::IfconfigIpv6Pool)
    } else if cmd == "ifconfig-ipv6-push"@ {
        Some(CommandId::IfconfigIpv6Push)
    } else {
        command_id_from_iroute_ipv6(cmd)
    }
}

/// Registry lookup among the commands `iroute-ipv6` through `server-bridge`.
#[verifier::opaque]
pub open spec fn command_id_from_iroute_ipv6(cmd: Seq<char>) -> Option<CommandId> {
    if cmd == "iroute-ipv6"@ {
        Some(CommandId::IrouteIpv6)
    } else if cmd == "server-bridge"@ {
        Some(CommandId::ServerBridge)
    } else {
        None
    }
}

/// The identifier registered for a command name, if any. Matching is exact:
/// no abbreviations, no aliases, no case folding.
pub open spec fn spec_command_id(cmd: Seq<char>) -> Option<CommandId> {
    command_id_from_help(cmd)
}

} // verus!
