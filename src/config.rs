//! The names by which the host spells the engine's stream and consumer
//! settings, and the settings they stand for.

use vstd::prelude::*;

verus! {

/// Which setting a name was given for.
#[derive(Debug, Clone, Copy, PartialEq, Eq, Structural)]
pub enum Setting {
    DeliverPolicy,
    AckPolicy,
    ReplayPolicy,
    PriorityPolicy,
    RetentionPolicy,
    StorageType,
    DiscardPolicy,
    Compression,
    PersistenceMode,
}

/// The setting as the host calls it.
pub open spec fn setting_label(setting: Setting) -> Seq<char> {
    match setting {
        Setting::DeliverPolicy => "deliver policy"@,
        Setting::AckPolicy => "ack policy"@,
        Setting::ReplayPolicy => "replay policy"@,
        Setting::PriorityPolicy => "priority policy"@,
        Setting::RetentionPolicy => "retention policy"@,
        Setting::StorageType => "storage type"@,
        Setting::DiscardPolicy => "discard policy"@,
        Setting::Compression => "compression policy"@,
        Setting::PersistenceMode => "persistence mode"@,
    }
}

impl Setting {
    /// The setting as the host calls it.
    pub fn label(&self) -> (r: &'static str)
        ensures
            r@ == setting_label(*self),
    {
        match self {
            Setting::DeliverPolicy => "deliver policy",
            Setting::AckPolicy => "ack policy",
            Setting::ReplayPolicy => "replay policy",
            Setting::PriorityPolicy => "priority policy",
            Setting::RetentionPolicy => "retention policy",
            Setting::StorageType => "storage type",
            Setting::DiscardPolicy => "discard policy",
            Setting::Compression => "compression policy",
            Setting::PersistenceMode => "persistence mode",
        }
    }
}

/// A name that stands for no value of its setting.
#[derive(Debug, Clone, PartialEq, Eq)]
pub struct ConfigError {
    pub setting: Setting,
    pub value: String,
}

/// Whether the two strings hold the same characters.
fn same_name(s: &str, name: &str) -> (r: bool)
    ensures
        r == (s@ == name@),
{
    s.to_owned() == name.to_owned()
}

/// The error for a name that stands for no value of the setting.
fn unknown_name(setting: Setting, s: &str) -> (r: ConfigError)
    ensures
        r.setting == setting,
        r.value@ == s@,
{
    ConfigError { setting, value: s.to_owned() }
}

/// Where a consumer starts delivering in its stream.
#[derive(Debug, Clone, Copy, PartialEq, Eq, Structural)]
pub enum DeliverPolicy {
    All,
    Last,
    New,
    LastPerSubject,
}

/// The deliver policy that a name stands for, if any.
pub open spec fn deliver_policy_named(s: Seq<char>) -> Option<DeliverPolicy> {
    if s == "all"@ {
        Some(DeliverPolicy::All)
    } else if s == "last"@ {
        Some(DeliverPolicy::Last)
    } else if s == "new"@ {
        Some(DeliverPolicy::New)
    } else if s == "last_per_subject"@ {
        Some(DeliverPolicy::LastPerSubject)
    } else {
        None
    }
}

/// The deliver policy that the name stands for; any other name is refused.
pub fn str_to_deliver_policy(s: &str) -> (r: Result<DeliverPolicy, ConfigError>)
    ensures
        match deliver_policy_named(s@) {
            Some(v) => r == Ok::<DeliverPolicy, ConfigError>(v),
            None => r matches Err(e) && e.setting == Setting::DeliverPolicy && e.value@ == s@,
        },
{
    if same_name(s, "all") {
        Ok(DeliverPolicy::All)
    } else if same_name(s, "last") {
        Ok(DeliverPolicy::Last)
    } else if same_name(s, "new") {
        Ok(DeliverPolicy::New)
    } else if same_name(s, "last_per_subject") {
        Ok(DeliverPolicy::LastPerSubject)
    } else {
        Err(unknown_name(Setting::DeliverPolicy, s))
    }
}

/// How a consumer expects its messages to be acknowledged.
#[derive(Debug, Clone, Copy, PartialEq, Eq, Structural)]
pub enum AckPolicy {
    Explicit,
    NoAck,
    All,
}

/// The ack policy that a name stands for, if any.
pub open spec fn ack_policy_named(s: Seq<char>) -> Option<AckPolicy> {
    if s == "explicit"@ {
        Some(AckPolicy::Explicit)
    } else if s == "none"@ {
        Some(AckPolicy::NoAck)
    } else if s == "all"@ {
        Some(AckPolicy::All)
    } else {
        None
    }
}

/// The ack policy that the name stands for; any other name is refused.
pub fn str_to_ack_policy(s: &str) -> (r: Result<AckPolicy, ConfigError>)
    ensures
        match ack_policy_named(s@) {
            Some(v) => r == Ok::<AckPolicy, ConfigError>(v),
            None => r matches Err(e) && e.setting == Setting::AckPolicy && e.value@ == s@,
        },
{
    if same_name(s, "explicit") {
        Ok(AckPolicy::Explicit)
    } else if same_name(s, "none") {
        Ok(AckPolicy::NoAck)
    } else if same_name(s, "all") {
        Ok(AckPolicy::All)
    } else {
        Err(unknown_name(Setting::AckPolicy, s))
    }
}

/// At what pace a consumer replays stored messages.
#[derive(Debug, Clone, Copy, PartialEq, Eq, Structural)]
pub enum ReplayPolicy {
    Instant,
    Original,
}

/// The replay policy that a name stands for, if any.
pub open spec fn replay_policy_named(s: Seq<char>) -> Option<ReplayPolicy> {
    if s == "instant"@ {
        Some(ReplayPolicy::Instant)
    } else if s == "original"@ {
        Some(ReplayPolicy::Original)
    } else {
        None
    }
}

/// The replay policy that the name stands for; any other name is refused.
pub fn str_to_replay_policy(s: &str) -> (r: Result<ReplayPolicy, ConfigError>)
    ensures
        match replay_policy_named(s@) {
            Some(v) => r == Ok::<ReplayPolicy, ConfigError>(v),
            None => r matches Err(e) && e.setting == Setting::ReplayPolicy && e.value@ == s@,
        },
{
    if same_name(s, "instant") {
        Ok(ReplayPolicy::Instant)
    } else if same_name(s, "original") {
        Ok(ReplayPolicy::Original)
    } else {
        Err(unknown_name(Setting::ReplayPolicy, s))
    }
}

/// How a consumer hands messages to groups of pulling clients.
#[derive(Debug, Clone, Copy, PartialEq, Eq, Structural)]
pub enum PriorityPolicy {
    Overflow,
    PinnedClient,
    Prioritized,
    NoPolicy,
}

/// The priority policy that a name stands for, if any.
pub open spec fn priority_policy_named(s: Seq<char>) -> Option<PriorityPolicy> {
    if s == "overflow"@ {
        Some(PriorityPolicy::Overflow)
    } else if s == "pinned_client"@ {
        Some(PriorityPolicy::PinnedClient)
    } else if s == "prioritized"@ {
        Some(PriorityPolicy::Prioritized)
    } else if s == "none"@ {
        Some(PriorityPolicy::NoPolicy)
    } else {
        None
    }
}

/// The priority policy that the name stands for; any other name is refused.
pub fn str_to_priority_policy(s: &str) -> (r: Result<PriorityPolicy, ConfigError>)
    ensures
        match priority_policy_named(s@) {
            Some(v) => r == Ok::<PriorityPolicy, ConfigError>(v),
            None => r matches Err(e) && e.setting == Setting::PriorityPolicy && e.value@ == s@,
        },
{
    if same_name(s, "overflow") {
        Ok(PriorityPolicy::Overflow)
    } else if same_name(s, "pinned_client") {
        Ok(PriorityPolicy::PinnedClient)
    } else if same_name(s, "prioritized") {
        Ok(PriorityPolicy::Prioritized)
    } else if same_name(s, "none") {
        Ok(PriorityPolicy::NoPolicy)
    } else {
        Err(unknown_name(Setting::PriorityPolicy, s))
    }
}

/// When a stream lets go of its messages.
#[derive(Debug, Clone, Copy, PartialEq, Eq, Structural)]
pub enum RetentionPolicy {
    Limits,
    Interest,
    WorkQueue,
}

/// The retention policy that a name stands for, if any.
pub open spec fn retention_policy_named(s: Seq<char>) -> Option<RetentionPolicy> {
    if s == "limits"@ {
        Some(RetentionPolicy::Limits)
    } else if s == "interest"@ {
        Some(RetentionPolicy::Interest)
    } else if s == "workqueue"@ {
        Some(RetentionPolicy::WorkQueue)
    } else {
        None
    }
}

/// The retention policy that the name stands for; any other name is refused.
pub fn str_to_retention_policy(s: &str) -> (r: Result<RetentionPolicy, ConfigError>)
    ensures
        match retention_policy_named(s@) {
            Some(v) => r == Ok::<RetentionPolicy, ConfigError>(v),
            None => r matches Err(e) && e.setting == Setting::RetentionPolicy && e.value@ == s@,
        },
{
    if same_name(s, "limits") {
        Ok(RetentionPolicy::Limits)
    } else if same_name(s, "interest") {
        Ok(RetentionPolicy::Interest)
    } else if same_name(s, "workqueue") {
        Ok(RetentionPolicy::WorkQueue)
    } else {
        Err(unknown_name(Setting::RetentionPolicy, s))
    }
}

/// Where a stream keeps its messages.
#[derive(Debug, Clone, Copy, PartialEq, Eq, Structural)]
pub enum StorageType {
    File,
    Memory,
}

/// The storage type that a name stands for, if any.
pub open spec fn storage_type_named(s: Seq<char>) -> Option<StorageType> {
    if s == "file"@ {
        Some(StorageType::File)
    } else if s == "memory"@ {
        Some(StorageType::Memory)
    } else {
        None
    }
}

/// The storage type that the name stands for; any other name is refused.
pub fn str_to_storage_type(s: &str) -> (r: Result<StorageType, ConfigError>)
    ensures
        match storage_type_named(s@) {
            Some(v) => r == Ok::<StorageType, ConfigError>(v),
            None => r matches Err(e) && e.setting == Setting::StorageType && e.value@ == s@,
        },
{
    if same_name(s, "file") {
        Ok(StorageType::File)
    } else if same_name(s, "memory") {
        Ok(StorageType::Memory)
    } else {
        Err(unknown_name(Setting::StorageType, s))
    }
}

/// Which messages a full stream discards.
#[derive(Debug, Clone, Copy, PartialEq, Eq, Structural)]
pub enum DiscardPolicy {
    New,
    Old,
}

/// The discard policy that a name stands for, if any.
pub open spec fn discard_policy_named(s: Seq<char>) -> Option<DiscardPolicy> {
    if s == "new"@ {
        Some(DiscardPolicy::New)
    } else if s == "old"@ {
        Some(DiscardPolicy::Old)
    } else {
        None
    }
}

/// The discard policy that the name stands for; any other name is refused.
pub fn str_to_discard_policy(s: &str) -> (r: Result<DiscardPolicy, ConfigError>)
    ensures
        match discard_policy_named(s@) {
            Some(v) => r == Ok::<DiscardPolicy, ConfigError>(v),
            None => r matches Err(e) && e.setting == Setting::DiscardPolicy && e.value@ == s@,
        },
{
    if same_name(s, "new") {
        Ok(DiscardPolicy::New)
    } else if same_name(s, "old") {
        Ok(DiscardPolicy::Old)
    } else {
        Err(unknown_name(Setting::DiscardPolicy, s))
    }
}

/// How a stream compresses its stored messages.
#[derive(Debug, Clone, Copy, PartialEq, Eq, Structural)]
pub enum Compression {
    Uncompressed,
    S2,
}

/// The compression policy that a name stands for, if any.
pub open spec fn compression_named(s: Seq<char>) -> Option<Compression> {
    if s == "none"@ {
        Some(Compression::Uncompressed)
    } else if s == "s2"@ {
        Some(Compression::S2)
    } else {
        None
    }
}

/// The compression policy that the name stands for; any other name is refused.
pub fn str_to_compression(s: &str) -> (r: Result<Compression, ConfigError>)
    ensures
        match compression_named(s@) {
            Some(v) => r == Ok::<Compression, ConfigError>(v),
            None => r matches Err(e) && e.setting == Setting::Compression && e.value@ == s@,
        },
{
    if same_name(s, "none") {
        Ok(Compression::Uncompressed)
    } else if same_name(s, "s2") {
        Ok(Compression::S2)
    } else {
        Err(unknown_name(Setting::Compression, s))
    }
}

/// How a stream persists its writes.
#[derive(Debug, Clone, Copy, PartialEq, Eq, Structural)]
pub enum PersistenceMode {
    Default,
    Async,
}

/// The persistence mode that a name stands for, if any.
pub open spec fn persistence_mode_named(s: Seq<char>) -> Option<PersistenceMode> {
    if s == "default"@ {
        Some(PersistenceMode::Default)
    } else if s == "async"@ {
        Some(PersistenceMode::Async)
    } else {
        None
    }
}

/// The persistence mode that the name stands for; any other name is refused.
pub fn str_to_persistence_mode(s: &str) -> (r: Result<PersistenceMode, ConfigError>)
    ensures
        match persistence_mode_named(s@) {
            Some(v) => r == Ok::<PersistenceMode, ConfigError>(v),
            None => r matches Err(e) && e.setting == Setting::PersistenceMode && e.value@ == s@,
        },
{
    if same_name(s, "default") {
        Ok(PersistenceMode::Default)
    } else if same_name(s, "async") {
        Ok(PersistenceMode::Async)
    } else {
        Err(unknown_name(Setting::PersistenceMode, s))
    }
}

} // verus!
