use vstd::prelude::*;

use crate::media::track::copy_opt;

verus! {

/// The first message on a connection: protocol version and application.
#[derive(Clone, Copy, Debug, PartialEq, Eq, Structural)]
pub struct Handshake {
    pub v: u8,
    pub client_id: u64,
}

/// The commands this client sends.
#[derive(Clone, Copy, Debug, PartialEq, Eq, Structural)]
pub enum Cmd {
    SetActivity,
}

/// What the user is doing; Discord knows each by a number.
#[derive(Clone, Copy, Debug, PartialEq, Eq, Structural)]
pub enum ActivityType {
    Game,
    Streaming,
    Listening,
    Watching,
    Custom,
    Competing,
}

impl Default for ActivityType {
    fn default() -> (r: Self)
        ensures
            r == ActivityType::Game,
    {
        ActivityType::Game
    }
}

impl ActivityType {
    /// The number that stands for the type on the wire.
    pub open spec fn spec_code(self) -> u8 {
        match self {
            ActivityType::Game => 0,
            ActivityType::Streaming => 1,
            ActivityType::Listening => 2,
            ActivityType::Watching => 3,
            ActivityType::Custom => 4,
            ActivityType::Competing => 5,
        }
    }

    pub fn code(self) -> (r: u8)
        ensures
            r == self.spec_code(),
    {
        match self {
            ActivityType::Game => 0,
            ActivityType::Streaming => 1,
            ActivityType::Listening => 2,
            ActivityType::Watching => 3,
            ActivityType::Custom => 4,
            ActivityType::Competing => 5,
        }
    }

    /// The type with the given number, where there is one.
    pub fn from_code(code: u8) -> (r: Option<Self>)
        ensures
            r matches Some(t) ==> t.spec_code() == code,
            r is None <==> code > 5,
    {
        match code {
            0 => Some(ActivityType::Game),
            1 => Some(ActivityType::Streaming),
            2 => Some(ActivityType::Listening),
            3 => Some(ActivityType::Watching),
            4 => Some(ActivityType::Custom),
            5 => Some(ActivityType::Competing),
            _ => None,
        }
    }
}

/// When the activity started and ends, in milliseconds since the epoch.
#[derive(Clone, Copy, Debug, Default, PartialEq, Eq, Structural)]
pub struct ActivityTimestamps {
    pub start: Option<u64>,
    pub end: Option<u64>,
}

/// The images of an activity and their hover texts.
#[derive(Debug, Default)]
pub struct ActivityAssets {
    pub large_image: Option<String>,
    pub large_text: Option<String>,
    pub small_image: Option<String>,
    pub small_text: Option<String>,
}

/// Assets as values.
pub ghost struct AssetsView {
    pub large_image: Option<Seq<char>>,
    pub large_text: Option<Seq<char>>,
    pub small_image: Option<Seq<char>>,
    pub small_text: Option<Seq<char>>,
}

impl View for ActivityAssets {
    type V = AssetsView;

    open spec fn view(&self) -> AssetsView {
        AssetsView {
            large_image: self.large_image.deep_view(),
            large_text: self.large_text.deep_view(),
            small_image: self.small_image.deep_view(),
            small_text: self.small_text.deep_view(),
        }
    }
}

impl Clone for ActivityAssets {
    fn clone(&self) -> (r: Self)
        ensures
            r@ == self@,
    {
        ActivityAssets {
            large_image: copy_opt(&self.large_image),
            large_text: copy_opt(&self.large_text),
            small_image: copy_opt(&self.small_image),
            small_text: copy_opt(&self.small_text),
        }
    }
}

/// A rich presence activity.
#[derive(Debug, Default)]
pub struct Activity {
    pub application_id: Option<u64>,
    pub platform: Option<String>,
    pub details: Option<String>,
    pub state: Option<String>,
    pub activity_type: ActivityType,
    pub status_display_type: Option<u8>,
    pub timestamps: Option<ActivityTimestamps>,
    pub assets: Option<ActivityAssets>,
}

/// An activity as values.
pub ghost struct ActivityView {
    pub application_id: Option<u64>,
    pub platform: Option<Seq<char>>,
    pub details: Option<Seq<char>>,
    pub state: Option<Seq<char>>,
    pub activity_type: ActivityType,
    pub status_display_type: Option<u8>,
    pub timestamps: Option<ActivityTimestamps>,
    pub assets: Option<AssetsView>,
}

impl View for Activity {
    type V = ActivityView;

    open spec fn view(&self) -> ActivityView {
        ActivityView {
            application_id: self.application_id,
            platform: self.platform.deep_view(),
            details: self.details.deep_view(),
            state: self.state.deep_view(),
            activity_type: self.activity_type,
            status_display_type: self.status_display_type,
            timestamps: self.timestamps,
            assets: match self.assets {
                Some(a) => Some(a@),
                None => None,
            },
        }
    }
}

impl Clone for Activity {
    fn clone(&self) -> (r: Self)
        ensures
            r@ == self@,
    {
        Activity {
            application_id: self.application_id,
            platform: copy_opt(&self.platform),
            details: copy_opt(&self.details),
            state: copy_opt(&self.state),
            activity_type: self.activity_type,
            status_display_type: self.status_display_type,
            timestamps: self.timestamps,
            assets: match &self.assets {
                Some(a) => Some(a.clone()),
                None => None,
            },
        }
    }
}

/// The arguments of SET_ACTIVITY: whose activity, and what it is (none to
/// clear it).
#[derive(Debug)]
pub struct Args {
    pub pid: u32,
    pub activity: Option<Activity>,
}

/// The SET_ACTIVITY command with its nonce, a random (version 4) UUID as a
/// 128-bit number.
#[derive(Debug)]
pub struct SetActivity {
    pub cmd: Cmd,
    pub args: Args,
    pub nonce: u128,
}

/// A version-4 UUID: version nibble 4, RFC 4122 variant bits `10`.
pub open spec fn is_v4_uuid(n: u128) -> bool {
    (n >> 76u128) & 0xf == 4 && (n >> 62u128) & 0x3 == 2
}

/// A fresh random UUID (`uuid::Uuid::new_v4`, read back with `as_u128`).
/// Its value rests on chance; what every outcome has is the version and
/// variant bits that `new_v4` sets.
#[verifier::external_body]
fn new_nonce() -> (r: u128)
    ensures
        is_v4_uuid(r),
{
    uuid::Uuid::new_v4().as_u128()
}

/// The handshake for the application `client_id`, protocol version 1.
pub fn handshake_request(client_id: u64) -> (r: Handshake)
    ensures
        r == (Handshake { v: 1, client_id }),
{
    Handshake { v: 1, client_id }
}

/// The command that sets (or, with no activity, clears) the activity of
/// process `pid`, under a fresh nonce.
pub fn set_activity_request(pid: u32, activity: Option<Activity>) -> (r: SetActivity)
    ensures
        r.cmd == Cmd::SetActivity,
        r.args.pid == pid,
        r.args.activity == activity,
        is_v4_uuid(r.nonce),
{
    SetActivity { cmd: Cmd::SetActivity, args: Args { pid, activity }, nonce: new_nonce() }
}

} // verus!
