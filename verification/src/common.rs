//! Shared value types: run modes, scheduler-RPC reasons, message priorities,
//! processor types, the client configuration snapshot, and the project /
//! account-manager naming trait.

use vstd::prelude::*;

verus! {

/// A UTC instant, counted in whole seconds since the Unix epoch.
pub type Time = i64;

/// The execution mode of a resource class.
#[derive(Clone, Copy, Debug, PartialEq, Eq, Structural)]
pub enum RunMode {
    Always,
    Auto,
    Never,
    Restore,
}

impl Default for RunMode {
    fn default() -> (r: Self)
        ensures
            r == RunMode::Auto,
    {
        RunMode::Auto
    }
}

impl RunMode {
    /// The numeric code used on the wire for this mode.
    pub fn mode_num(self) -> (r: u8)
        ensures
            r == spec_mode_num(self),
    {
        match self {
            RunMode::Always => 1,
            RunMode::Auto => 2,
            RunMode::Never => 3,
            RunMode::Restore => 4,
        }
    }
}

pub open spec fn spec_mode_num(v: RunMode) -> u8 {
    match v {
        RunMode::Always => 1,
        RunMode::Auto => 2,
        RunMode::Never => 3,
        RunMode::Restore => 4,
    }
}

/// A justification for contacting a remote project's scheduler.
#[derive(Clone, Copy, Debug, PartialEq, Eq, Structural)]
pub enum RpcReason {
    UserRequest,
    ResultsDue,
    NeedWork,
    TrickleUp,
    AccountManagerRequest,
    Init,
    ProjectRequest,
}

impl RpcReason {
    /// The numeric code used on the wire for this reason.
    pub fn reason_num(self) -> (r: u8)
        ensures
            r == spec_reason_num(self),
    {
        match self {
            RpcReason::UserRequest => 1,
            RpcReason::ResultsDue => 2,
            RpcReason::NeedWork => 3,
            RpcReason::TrickleUp => 4,
            RpcReason::AccountManagerRequest => 5,
            RpcReason::Init => 6,
            RpcReason::ProjectRequest => 7,
        }
    }
}

pub open spec fn spec_reason_num(v: RpcReason) -> u8 {
    match v {
        RpcReason::UserRequest => 1,
        RpcReason::ResultsDue => 2,
        RpcReason::NeedWork => 3,
        RpcReason::TrickleUp => 4,
        RpcReason::AccountManagerRequest => 5,
        RpcReason::Init => 6,
        RpcReason::ProjectRequest => 7,
    }
}

/// The priority of a log message, ordered from least to most severe.
#[derive(Clone, Copy, Debug, PartialEq, Eq, Structural)]
pub enum MessagePriority {
    Debug,
    Info,
    UserAlert,
    InternalError,
    SchedulerAlert,
}

pub open spec fn spec_priority_num(v: MessagePriority) -> u8 {
    match v {
        MessagePriority::Debug => 0,
        MessagePriority::Info => 1,
        MessagePriority::UserAlert => 2,
        MessagePriority::InternalError => 3,
        MessagePriority::SchedulerAlert => 4,
    }
}

impl MessagePriority {
    /// The numeric code used on the wire for this priority.
    pub fn priority_num(self) -> (r: u8)
        ensures
            r == spec_priority_num(self),
    {
        match self {
            MessagePriority::Debug => 0,
            MessagePriority::Info => 1,
            MessagePriority::UserAlert => 2,
            MessagePriority::InternalError => 3,
            MessagePriority::SchedulerAlert => 4,
        }
    }

    /// The priority denoted by a numeric code, if any.
    pub fn from_num(v: u8) -> (r: Option<MessagePriority>)
        ensures
            match r {
                Some(p) => spec_priority_num(p) == v,
                None => v > 4,
            },
    {
        if v == 0 {
            Some(MessagePriority::Debug)
        } else if v == 1 {
            Some(MessagePriority::Info)
        } else if v == 2 {
            Some(MessagePriority::UserAlert)
        } else if v == 3 {
            Some(MessagePriority::InternalError)
        } else if v == 4 {
            Some(MessagePriority::SchedulerAlert)
        } else {
            None
        }
    }
}

/// The client configuration snapshot read at startup.
#[derive(Clone, Debug)]
pub struct CCConfig {
    pub disallow_attach: bool,
    pub simple_gui_only: bool,
    pub max_event_log_lines: u64,
}

impl Default for CCConfig {
    fn default() -> (r: Self)
        ensures
            !r.disallow_attach,
            !r.simple_gui_only,
            r.max_event_log_lines == 2000,
    {
        CCConfig { disallow_attach: false, simple_gui_only: false, max_event_log_lines: 2000 }
    }
}

/// Something with a master URL and an optional display name: a project or an
/// account manager.
pub trait ProjAm: Sized {
    spec fn spec_master_url(&self) -> Seq<char>;

    spec fn spec_project_name(&self) -> Option<Seq<char>>;

    fn master_url(&self) -> (r: String)
        ensures
            r@ == self.spec_master_url(),
    ;

    fn project_name(&self) -> (r: Option<String>)
        ensures
            match r {
                Some(s) => self.spec_project_name() == Some(s@),
                None => self.spec_project_name() is None,
            },
    ;

    /// The display name if one is set, else the master URL.
    fn get_project_name(&self) -> (r: String)
        ensures
            match self.spec_project_name() {
                Some(n) => r@ == n,
                None => r@ == self.spec_master_url(),
            },
    {
        match self.project_name() {
            Some(s) => s,
            None => self.master_url(),
        }
    }
}

} // verus!
