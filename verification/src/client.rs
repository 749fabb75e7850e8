//! What a client states about itself when it logs in, and the structured
//! value that carries it to the broker.

use crate::value::{
    distinct_keys, lemma_lookup_absent, lemma_lookup_at, RpcMap, RpcValue, Wire,
};
use vstd::prelude::*;

verus! {

/// How the password of a login is encoded.
#[derive(Copy, Clone, Debug, PartialEq, Eq)]
pub enum LoginType {
    PLAIN,
    SHA1,
}

impl LoginType {
    /// The name by which the broker knows the login type.
    pub open spec fn name(self) -> Seq<char> {
        match self {
            LoginType::PLAIN => "PLAIN"@,
            LoginType::SHA1 => "SHA1"@,
        }
    }

    /// The name by which the broker knows the login type.
    pub fn to_str(&self) -> (name: &str)
        ensures
            name@ == self.name(),
    {
        match self {
            LoginType::PLAIN => "PLAIN",
            LoginType::SHA1 => "SHA1",
        }
    }
}

/// The kind of connection a client uses to reach the broker.
#[derive(Copy, Clone, Debug, PartialEq, Eq)]
pub enum Scheme {
    Tcp,
    LocalSocket,
}

/// The multiple of the heartbeat interval after which the broker gives up on
/// a silent connection.
pub const WATCHDOG_HEARTBEATS: u64 = 3;

/// The preferences of one login attempt.
#[derive(Clone, Debug, PartialEq, Eq)]
pub struct LoginParams {
    pub user: String,
    pub password: String,
    pub login_type: LoginType,
    /// The device identifier; empty when the client has none.
    pub device_id: String,
    /// The mount point, which counts only while `device_id` is empty.
    pub mount_point: String,
    /// The heartbeat interval in whole seconds.
    pub heartbeat_interval: Option<u64>,
}

/// The mathematical content of [`LoginParams`].
pub struct ParamsModel {
    pub user: Seq<char>,
    pub password: Seq<char>,
    pub login_type: LoginType,
    pub device_id: Seq<char>,
    pub mount_point: Seq<char>,
    pub heartbeat_interval: Option<u64>,
}

impl View for LoginParams {
    type V = ParamsModel;

    open spec fn view(&self) -> ParamsModel {
        ParamsModel {
            user: self.user@,
            password: self.password@,
            login_type: self.login_type,
            device_id: self.device_id@,
            mount_point: self.mount_point@,
            heartbeat_interval: self.heartbeat_interval,
        }
    }
}

impl Default for LoginParams {
    /// No user, no password, a hashed login, no device, and a heartbeat every
    /// 60 seconds.
    fn default() -> (params: LoginParams)
        ensures
            params.user@ == Seq::<char>::empty(),
            params.password@ == Seq::<char>::empty(),
            params.login_type == LoginType::SHA1,
            params.device_id@ == Seq::<char>::empty(),
            params.mount_point@ == Seq::<char>::empty(),
            params.heartbeat_interval == Some(60u64),
    {
        LoginParams {
            user: String::new(),
            password: String::new(),
            login_type: LoginType::SHA1,
            device_id: String::new(),
            mount_point: String::new(),
            heartbeat_interval: Some(60),
        }
    }
}

/// The member of `parent` stored under `key`, when `parent` is a mapping that
/// has one.
pub open spec fn member(parent: Option<Wire>, key: Seq<char>) -> Option<Wire> {
    match parent {
        Some(value) => value.get(key),
        None => None,
    }
}

impl ParamsModel {
    /// The entries of the `login` section.
    pub open spec fn login_entries(self) -> Seq<(Seq<char>, Wire)> {
        seq![
            ("user"@, Wire::Text(self.user)),
            ("password"@, Wire::Text(self.password)),
            ("type"@, Wire::Text(self.login_type.name())),
        ]
    }

    /// The entries that identify the device: the device identifier when there
    /// is one, else the mount point when there is one, else nothing.
    pub open spec fn device_entries(self) -> Seq<(Seq<char>, Wire)> {
        if self.device_id.len() > 0 {
            seq![("deviceId"@, Wire::Text(self.device_id))]
        } else if self.mount_point.len() > 0 {
            seq![("mountPoint"@, Wire::Text(self.mount_point))]
        } else {
            Seq::empty()
        }
    }

    /// The entries of the `options` section: the watchdog timeout when a
    /// heartbeat interval is set, then the device when it is identified.
    pub open spec fn option_entries(self) -> Seq<(Seq<char>, Wire)> {
        let watchdog = match self.heartbeat_interval {
            Some(seconds) => seq![
                ("idleWatchDogTimeOut"@, Wire::Int(WATCHDOG_HEARTBEATS * seconds)),
            ],
            None => Seq::empty(),
        };
        let device = if self.device_entries().len() > 0 {
            seq![("device"@, Wire::Dict(self.device_entries()))]
        } else {
            Seq::empty()
        };
        watchdog + device
    }

    /// The content of the value that carries these parameters.
    pub open spec fn wire(self) -> Wire {
        Wire::Dict(
            seq![
                ("login"@, Wire::Dict(self.login_entries())),
                ("options"@, Wire::Dict(self.option_entries())),
            ],
        )
    }
}

/// The keys of the login value differ from one another wherever two of them
/// stand in one mapping.
pub proof fn lemma_keys_differ()
    ensures
        "user"@ != "password"@,
        "user"@ != "type"@,
        "password"@ != "type"@,
        "login"@ != "options"@,
        "idleWatchDogTimeOut"@ != "device"@,
        "deviceId"@ != "mountPoint"@,
{
    reveal_strlit("user");
    reveal_strlit("password");
    reveal_strlit("type");
    reveal_strlit("login");
    reveal_strlit("options");
    reveal_strlit("idleWatchDogTimeOut");
    reveal_strlit("device");
    reveal_strlit("deviceId");
    reveal_strlit("mountPoint");
    assert("user"@[0] != "type"@[0]);
    assert("user"@.len() != "password"@.len());
    assert("password"@.len() != "type"@.len());
    assert("login"@.len() != "options"@.len());
    assert("idleWatchDogTimeOut"@.len() != "device"@.len());
    assert("deviceId"@.len() != "mountPoint"@.len());
}

impl ParamsModel {
    /// The value has exactly the two sections `login` and `options`, in that
    /// order, whatever the parameters hold.
    pub proof fn lemma_sections(self)
        ensures
            self.wire().keys() == seq!["login"@, "options"@],
            self.wire().get("login"@) == Some(Wire::Dict(self.login_entries())),
            self.wire().get("options"@) == Some(Wire::Dict(self.option_entries())),
    {
        lemma_keys_differ();
        let sections = self.wire()->Dict_0;
        lemma_lookup_at(sections, "login"@, 0);
        lemma_lookup_at(sections, "options"@, 1);
        assert(self.wire().keys() =~= seq!["login"@, "options"@]);
    }

    /// The `login` section holds exactly `user`, `password` and `type`, each
    /// with the value that the parameters give it.
    pub proof fn lemma_login_section(self)
        ensures
            Wire::Dict(self.login_entries()).keys() == seq!["user"@, "password"@, "type"@],
            member(self.wire().get("login"@), "user"@) == Some(Wire::Text(self.user)),
            member(self.wire().get("login"@), "password"@) == Some(Wire::Text(self.password)),
            member(self.wire().get("login"@), "type"@) == Some(
                Wire::Text(self.login_type.name()),
            ),
    {
        lemma_keys_differ();
        self.lemma_sections();
        let login = self.login_entries();
        lemma_lookup_at(login, "user"@, 0);
        lemma_lookup_at(login, "password"@, 1);
        lemma_lookup_at(login, "type"@, 2);
        assert(Wire::Dict(login).keys() =~= seq!["user"@, "password"@, "type"@]);
    }

    /// With a heartbeat interval of `n` seconds the watchdog timeout is `3n`;
    /// without one the `options` section has no watchdog timeout.
    pub proof fn lemma_watchdog(self)
        ensures
            match self.heartbeat_interval {
                Some(seconds) => member(self.wire().get("options"@), "idleWatchDogTimeOut"@)
                    == Some(Wire::Int(3 * seconds)),
                None => member(self.wire().get("options"@), "idleWatchDogTimeOut"@) is None,
            },
    {
        lemma_keys_differ();
        self.lemma_sections();
        let options = self.option_entries();
        match self.heartbeat_interval {
            Some(seconds) => {
                lemma_lookup_at(options, "idleWatchDogTimeOut"@, 0);
            },
            None => {
                lemma_lookup_absent(options, "idleWatchDogTimeOut"@, Wire::Null);
            },
        }
    }

    /// A device identifier, when there is one, is the only thing that
    /// identifies the device, whatever the mount point is. Without a device
    /// identifier a mount point identifies it. Without either, the `options`
    /// section has no `device`.
    pub proof fn lemma_device(self)
        ensures
            self.device_id.len() > 0 ==> {
                let device = member(self.wire().get("options"@), "device"@);
                &&& device == Some(Wire::Dict(seq![("deviceId"@, Wire::Text(self.device_id))]))
                &&& member(device, "deviceId"@) == Some(Wire::Text(self.device_id))
                &&& member(device, "mountPoint"@) is None
            },
            self.device_id.len() == 0 && self.mount_point.len() > 0 ==> {
                let device = member(self.wire().get("options"@), "device"@);
                &&& device == Some(
                    Wire::Dict(seq![("mountPoint"@, Wire::Text(self.mount_point))]),
                )
                &&& member(device, "mountPoint"@) == Some(Wire::Text(self.mount_point))
                &&& member(device, "deviceId"@) is None
            },
            self.device_id.len() == 0 && self.mount_point.len() == 0 ==> member(
                self.wire().get("options"@),
                "device"@,
            ) is None,
    {
        lemma_keys_differ();
        self.lemma_sections();
        let options = self.option_entries();
        let device = self.device_entries();
        let at: int = if self.heartbeat_interval is Some { 1 } else { 0 };
        if device.len() > 0 {
            lemma_lookup_at(options, "device"@, at);
            if self.device_id.len() > 0 {
                lemma_lookup_at(device, "deviceId"@, 0);
                lemma_lookup_absent(device, "mountPoint"@, Wire::Null);
            } else {
                lemma_lookup_at(device, "mountPoint"@, 0);
                lemma_lookup_absent(device, "deviceId"@, Wire::Null);
            }
        } else {
            lemma_lookup_absent(options, "device"@, Wire::Null);
        }
    }

    /// No mapping of the value holds a key twice.
    pub proof fn lemma_distinct_keys(self)
        ensures
            distinct_keys(self.wire()->Dict_0),
            distinct_keys(self.login_entries()),
            distinct_keys(self.option_entries()),
            distinct_keys(self.device_entries()),
    {
        lemma_keys_differ();
    }
}

impl LoginParams {
    /// The structured value that carries these parameters to the broker.
    ///
    /// The value always has the two sections `login` and `options`. The
    /// `login` section always holds `user`, `password` and `type`. The
    /// `options` section holds `idleWatchDogTimeOut`, three times the
    /// heartbeat interval, exactly when an interval is set, and `device`
    /// exactly when the device is identified: by `deviceId` when there is a
    /// device identifier, else by `mountPoint`.
    pub fn to_rpcvalue(&self) -> (value: RpcValue)
        ensures
            value@ == self@.wire(),
            value@.keys() == seq!["login"@, "options"@],
            value@.get("login"@) is Some,
            value@.get("login"@)->0.keys() == seq!["user"@, "password"@, "type"@],
            member(value@.get("login"@), "user"@) == Some(Wire::Text(self.user@)),
            member(value@.get("login"@), "password"@) == Some(Wire::Text(self.password@)),
            member(value@.get("login"@), "type"@) == Some(Wire::Text(self.login_type.name())),
            value@.get("options"@) is Some,
            match self.heartbeat_interval {
                Some(seconds) => member(value@.get("options"@), "idleWatchDogTimeOut"@) == Some(
                    Wire::Int(3 * seconds),
                ),
                None => member(value@.get("options"@), "idleWatchDogTimeOut"@) is None,
            },
            self.device_id@.len() > 0 ==> {
                let device = member(value@.get("options"@), "device"@);
                &&& member(device, "deviceId"@) == Some(Wire::Text(self.device_id@))
                &&& member(device, "mountPoint"@) is None
            },
            self.device_id@.len() == 0 && self.mount_point@.len() > 0 ==> {
                let device = member(value@.get("options"@), "device"@);
                &&& member(device, "mountPoint"@) == Some(Wire::Text(self.mount_point@))
                &&& member(device, "deviceId"@) is None
            },
            self.device_id@.len() == 0 && self.mount_point@.len() == 0 ==> member(
                value@.get("options"@),
                "device"@,
            ) is None,
    {
        proof {
            lemma_keys_differ();
        }
        let mut login = RpcMap::new();
        login.insert("user".to_owned(), RpcValue::String(self.user.clone()));
        proof {
            lemma_lookup_absent(Seq::empty(), "user"@, Wire::Text(self.user@));
        }
        let ghost one = login@;
        login.insert("password".to_owned(), RpcValue::String(self.password.clone()));
        proof {
            lemma_lookup_absent(one, "password"@, Wire::Text(self.password@));
        }
        let ghost two = login@;
        login.insert("type".to_owned(), RpcValue::String(self.login_type.to_str().to_owned()));
        proof {
            lemma_lookup_absent(two, "type"@, Wire::Text(self.login_type.name()));
        }
        assert(login@ =~= self@.login_entries());

        let mut device = RpcMap::new();
        if !self.device_id.as_str().is_empty() {
            device.insert("deviceId".to_owned(), RpcValue::String(self.device_id.clone()));
            proof {
                lemma_lookup_absent(Seq::empty(), "deviceId"@, Wire::Text(self.device_id@));
            }
        } else if !self.mount_point.as_str().is_empty() {
            device.insert("mountPoint".to_owned(), RpcValue::String(self.mount_point.clone()));
            proof {
                lemma_lookup_absent(Seq::empty(), "mountPoint"@, Wire::Text(self.mount_point@));
            }
        }
        assert(device@ =~= self@.device_entries());

        let mut options = RpcMap::new();
        if let Some(seconds) = self.heartbeat_interval {
            let timeout: i128 = (WATCHDOG_HEARTBEATS as i128) * (seconds as i128);
            options.insert("idleWatchDogTimeOut".to_owned(), RpcValue::Int(timeout));
            proof {
                lemma_lookup_absent(Seq::empty(), "idleWatchDogTimeOut"@, Wire::Int(timeout as int));
            }
        }
        if !device.is_empty() {
            let ghost before = options@;
            options.insert("device".to_owned(), RpcValue::Mapping(device));
            proof {
                lemma_lookup_absent(before, "device"@, Wire::Dict(self@.device_entries()));
            }
        }
        assert(options@ =~= self@.option_entries());

        let mut map = RpcMap::new();
        map.insert("login".to_owned(), RpcValue::Mapping(login));
        proof {
            lemma_lookup_absent(Seq::empty(), "login"@, Wire::Dict(self@.login_entries()));
        }
        let ghost first = map@;
        map.insert("options".to_owned(), RpcValue::Mapping(options));
        proof {
            lemma_lookup_absent(first, "options"@, Wire::Dict(self@.option_entries()));
            assert(map@ =~= self@.wire()->Dict_0);
            self@.lemma_sections();
            self@.lemma_login_section();
            self@.lemma_watchdog();
            self@.lemma_device();
        }
        RpcValue::Mapping(map)
    }
}

} // verus!
