//! Records of the local store, the text under which their enumerations are
//! stored, and the calendar event that scheduling a social post creates.

use vstd::prelude::*;

verus! {

/// A client.
pub struct Client {
    pub id: Option<i32>,
    pub name: String,
    pub email: String,
    pub phone: Option<String>,
}

/// The kind of a calendar event.
#[derive(Debug, Clone, Copy, PartialEq, Eq, Structural)]
pub enum EventKind {
    Default,
    SocialMedia,
    Meeting,
}

/// A calendar event.
#[derive(Debug)]
pub struct Event {
    pub id: Option<i32>,
    pub kind: EventKind,
    pub title: String,
    pub schedule_time: String,
    pub end_time: Option<String>,
    pub client_id: Option<i32>,
    pub completed: bool,
}

/// A query for the events of one kind within a period.
pub struct ListEventsTimeKind {
    pub event_kind: EventKind,
    pub start_date: String,
    pub end_date: String,
}

/// A social media post.
pub struct SocialMediaPost {
    pub id: Option<i32>,
    pub event_id: Option<i32>,
    pub platform: String,
    pub content: String,
    pub status: SocialMediaStatus,
}

/// Where a social media post stands.
#[derive(Debug, Clone, Copy, PartialEq, Eq, Structural)]
pub enum SocialMediaStatus {
    Drafted,
    Scheduled,
    Posted,
}

/// A post to schedule, when, and the file attached to it, if any.
pub struct ScheduleSocialPostArgs {
    pub post: SocialMediaPost,
    pub schedule_time: String,
    pub file_path: Option<String>,
}

/// A post listed with the time of its event, if it has one.
pub struct SocialMediaPostWithEvent {
    pub id: i32,
    pub event_id: Option<i32>,
    pub platform: String,
    pub content: String,
    pub status: String,
    pub schedule_time: Option<String>,
}

/// The stored text of an event kind.
pub open spec fn event_kind_text(kind: EventKind) -> Seq<char> {
    match kind {
        EventKind::Default => "default"@,
        EventKind::SocialMedia => "socialmedia"@,
        EventKind::Meeting => "meeting"@,
    }
}

/// The event kind stored as `text`, if any.
pub open spec fn event_kind_of_text(text: Seq<char>) -> Option<EventKind> {
    if text == "default"@ {
        Some(EventKind::Default)
    } else if text == "socialmedia"@ {
        Some(EventKind::SocialMedia)
    } else if text == "meeting"@ {
        Some(EventKind::Meeting)
    } else {
        None
    }
}

/// The stored text of a post status.
pub open spec fn post_status_text(status: SocialMediaStatus) -> Seq<char> {
    match status {
        SocialMediaStatus::Drafted => "drafted"@,
        SocialMediaStatus::Scheduled => "scheduled"@,
        SocialMediaStatus::Posted => "posted"@,
    }
}

/// The post status stored as `text`, if any.
pub open spec fn post_status_of_text(text: Seq<char>) -> Option<SocialMediaStatus> {
    if text == "drafted"@ {
        Some(SocialMediaStatus::Drafted)
    } else if text == "scheduled"@ {
        Some(SocialMediaStatus::Scheduled)
    } else if text == "posted"@ {
        Some(SocialMediaStatus::Posted)
    } else {
        None
    }
}

/// Reading back the stored text of an event kind gives that kind.
pub proof fn lemma_event_kind_text_round_trip(kind: EventKind)
    ensures
        event_kind_of_text(event_kind_text(kind)) == Some(kind),
{
    reveal_strlit("default");
    reveal_strlit("socialmedia");
    reveal_strlit("meeting");
    assert("default"@[0] != "socialmedia"@[0]);
    assert("default"@[0] != "meeting"@[0]);
    assert("socialmedia"@[0] != "meeting"@[0]);
}

/// Reading back the stored text of a post status gives that status.
pub proof fn lemma_post_status_text_round_trip(status: SocialMediaStatus)
    ensures
        post_status_of_text(post_status_text(status)) == Some(status),
{
    reveal_strlit("drafted");
    reveal_strlit("scheduled");
    reveal_strlit("posted");
    assert("drafted"@[0] != "scheduled"@[0]);
    assert("drafted"@[0] != "posted"@[0]);
    assert("scheduled"@[0] != "posted"@[0]);
}

/// Whether two texts are equal.
fn same_text(a: &str, b: &str) -> (r: bool)
    ensures
        r == (a@ == b@),
{
    a.to_owned() == b.to_owned()
}

impl EventKind {
    /// The text under which the kind is stored.
    pub fn as_sql_text(&self) -> (r: &'static str)
        ensures
            r@ == event_kind_text(*self),
    {
        match self {
            EventKind::Default => "default",
            EventKind::SocialMedia => "socialmedia",
            EventKind::Meeting => "meeting",
        }
    }

    /// The kind stored as `text`; `None` for any other text.
    pub fn from_sql_text(text: &str) -> (r: Option<EventKind>)
        ensures
            r == event_kind_of_text(text@),
    {
        if same_text(text, "default") {
            Some(EventKind::Default)
        } else if same_text(text, "socialmedia") {
            Some(EventKind::SocialMedia)
        } else if same_text(text, "meeting") {
            Some(EventKind::Meeting)
        } else {
            None
        }
    }
}

impl SocialMediaStatus {
    /// The text under which the status is stored.
    pub fn as_sql_text(&self) -> (r: &'static str)
        ensures
            r@ == post_status_text(*self),
    {
        match self {
            SocialMediaStatus::Drafted => "drafted",
            SocialMediaStatus::Scheduled => "scheduled",
            SocialMediaStatus::Posted => "posted",
        }
    }

    /// The status stored as `text`; `None` for any other text.
    pub fn from_sql_text(text: &str) -> (r: Option<SocialMediaStatus>)
        ensures
            r == post_status_of_text(text@),
    {
        if same_text(text, "drafted") {
            Some(SocialMediaStatus::Drafted)
        } else if same_text(text, "scheduled") {
            Some(SocialMediaStatus::Scheduled)
        } else if same_text(text, "posted") {
            Some(SocialMediaStatus::Posted)
        } else {
            None
        }
    }
}

/// `s` with every match of the non-empty `from`, taken from the left without
/// overlap, replaced by `to`.
pub open spec fn replaced(s: Seq<char>, from: Seq<char>, to: Seq<char>) -> Seq<char>
    decreases s.len(),
{
    if s.len() == 0 {
        s
    } else if 0 < from.len() <= s.len() && s.subrange(0, from.len() as int) == from {
        to + replaced(s.skip(from.len() as int), from, to)
    } else {
        seq![s[0]] + replaced(s.skip(1), from, to)
    }
}

/// Relies on `str::replace`, which replaces the matches of `from`, found from
/// the left without overlap, by `to`.
#[verifier::external_body]
fn replace_all(s: &str, from: &str, to: &str) -> (r: String)
    requires
        from@.len() > 0,
    ensures
        r@ == replaced(s@, from@, to@),
{
    s.replace(from, to)
}

/// The title of the event of a post on `platform`, where `::` separates the
/// names of several platforms.
pub open spec fn post_event_title(platform: Seq<char>) -> Seq<char> {
    "Social Media Post for ("@ + replaced(platform, "::"@, ", "@) + ")"@
}

/// The calendar event that scheduling `post` at `schedule_time` creates: none
/// for a draft; for a scheduled or posted one, a social media event, completed
/// only where the post is already out.
pub fn social_post_event(post: &SocialMediaPost, schedule_time: String) -> (r: Option<Event>)
    ensures
        match post.status {
            SocialMediaStatus::Drafted => r is None,
            _ => r matches Some(e) && {
                &&& e.id is None
                &&& e.kind == EventKind::SocialMedia
                &&& e.title@ == post_event_title(post.platform@)
                &&& e.schedule_time == schedule_time
                &&& e.end_time is None
                &&& e.client_id is None
                &&& e.completed == (post.status == SocialMediaStatus::Posted)
            },
        },
{
    match post.status {
        SocialMediaStatus::Drafted => None,
        SocialMediaStatus::Scheduled | SocialMediaStatus::Posted => {
            proof {
                reveal_strlit("::");
            }
            let label = replace_all(post.platform.as_str(), "::", ", ");
            let mut title = "Social Media Post for (".to_owned();
            title.append(label.as_str());
            title.append(")");
            let completed = match post.status {
                SocialMediaStatus::Posted => true,
                _ => false,
            };
            Some(
                Event {
                    id: None,
                    kind: EventKind::SocialMedia,
                    title,
                    schedule_time,
                    end_time: None,
                    client_id: None,
                    completed,
                },
            )
        },
    }
}

} // verus!
