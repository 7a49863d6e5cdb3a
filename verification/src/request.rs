//! The request model: the kinds of request the workload issues, with their
//! payloads, and the explicit per-kind tag that keys the latency histograms.

use vstd::prelude::*;

verus! {

pub type StoryId = u32;

pub type UserId = u32;

pub type CommentId = u32;

/// The direction of a vote.
#[derive(Debug, Clone, Copy, Eq, PartialEq, Structural, Hash)]
pub enum Vote {
    Up,
    Down,
}

/// One logical request against the backend under test.
#[derive(Debug, Clone, Eq, PartialEq, Hash)]
pub enum LobstersRequest {
    Frontpage,
    Story(StoryId),
    Login(UserId),
    Logout(UserId),
    StoryVote(UserId, StoryId, Vote),
    CommentVote(UserId, CommentId, Vote),
    Submit { id: StoryId, user: UserId, title: String },
    Comment { id: CommentId, user: UserId, story: StoryId, parent: Option<CommentId> },
}

/// The tag of a request, used to key histograms; one variant per request kind.
#[derive(Debug, Clone, Copy, Eq, PartialEq, Structural, Hash)]
pub enum RequestKind {
    Frontpage,
    Story,
    Login,
    Logout,
    StoryVote,
    CommentVote,
    Submit,
    Comment,
}

/// The number of request kinds.
pub const NUM_REQUEST_KINDS: usize = 8;

impl LobstersRequest {
    /// The tag of this request.
    pub open spec fn kind_spec(self) -> RequestKind {
        match self {
            LobstersRequest::Frontpage => RequestKind::Frontpage,
            LobstersRequest::Story(..) => RequestKind::Story,
            LobstersRequest::Login(..) => RequestKind::Login,
            LobstersRequest::Logout(..) => RequestKind::Logout,
            LobstersRequest::StoryVote(..) => RequestKind::StoryVote,
            LobstersRequest::CommentVote(..) => RequestKind::CommentVote,
            LobstersRequest::Submit { .. } => RequestKind::Submit,
            LobstersRequest::Comment { .. } => RequestKind::Comment,
        }
    }

    /// Return this request's tag.
    pub fn kind(&self) -> (k: RequestKind)
        ensures
            k == self.kind_spec(),
    {
        match self {
            LobstersRequest::Frontpage => RequestKind::Frontpage,
            LobstersRequest::Story(..) => RequestKind::Story,
            LobstersRequest::Login(..) => RequestKind::Login,
            LobstersRequest::Logout(..) => RequestKind::Logout,
            LobstersRequest::StoryVote(..) => RequestKind::StoryVote,
            LobstersRequest::CommentVote(..) => RequestKind::CommentVote,
            LobstersRequest::Submit { .. } => RequestKind::Submit,
            LobstersRequest::Comment { .. } => RequestKind::Comment,
        }
    }

    /// Every request tag, one per kind, in a fixed order.
    pub fn all() -> (r: Vec<RequestKind>)
        ensures
            r@ =~= all_kinds(),
    {
        let mut v: Vec<RequestKind> = Vec::new();
        v.push(RequestKind::Frontpage);
        v.push(RequestKind::Story);
        v.push(RequestKind::Login);
        v.push(RequestKind::Logout);
        v.push(RequestKind::StoryVote);
        v.push(RequestKind::CommentVote);
        v.push(RequestKind::Submit);
        v.push(RequestKind::Comment);
        v
    }
}

/// Every request tag, in the order `all` returns them.
pub open spec fn all_kinds() -> Seq<RequestKind> {
    seq![
        RequestKind::Frontpage,
        RequestKind::Story,
        RequestKind::Login,
        RequestKind::Logout,
        RequestKind::StoryVote,
        RequestKind::CommentVote,
        RequestKind::Submit,
        RequestKind::Comment,
    ]
}

impl RequestKind {
    /// The position of this tag in `all_kinds`, used as a histogram index.
    pub open spec fn index_spec(self) -> int {
        match self {
            RequestKind::Frontpage => 0,
            RequestKind::Story => 1,
            RequestKind::Login => 2,
            RequestKind::Logout => 3,
            RequestKind::StoryVote => 4,
            RequestKind::CommentVote => 5,
            RequestKind::Submit => 6,
            RequestKind::Comment => 7,
        }
    }

    /// Return this tag's histogram index, always below `NUM_REQUEST_KINDS`.
    pub fn index(&self) -> (i: usize)
        ensures
            i == self.index_spec(),
            i < NUM_REQUEST_KINDS,
    {
        match self {
            RequestKind::Frontpage => 0,
            RequestKind::Story => 1,
            RequestKind::Login => 2,
            RequestKind::Logout => 3,
            RequestKind::StoryVote => 4,
            RequestKind::CommentVote => 5,
            RequestKind::Submit => 6,
            RequestKind::Comment => 7,
        }
    }
}

/// The character of one decimal digit.
pub open spec fn decimal_char(d: int) -> char {
    if d == 0 {
        '0'
    } else if d == 1 {
        '1'
    } else if d == 2 {
        '2'
    } else if d == 3 {
        '3'
    } else if d == 4 {
        '4'
    } else if d == 5 {
        '5'
    } else if d == 6 {
        '6'
    } else if d == 7 {
        '7'
    } else if d == 8 {
        '8'
    } else {
        '9'
    }
}

/// The decimal digits of a nonnegative number, most significant first, with
/// no leading zeros.
#[verifier::opaque]
pub open spec fn decimal_digits(n: int) -> Seq<char>
    decreases n,
{
    if n <= 9 {
        seq![decimal_char(n)]
    } else {
        decimal_digits(n / 10).push(decimal_char(n % 10))
    }
}

/// The canonical title of a primed story: the words `Base article` and the
/// story ID in decimal.
pub open spec fn title_of(id: int) -> Seq<char> {
    "Base article "@ + decimal_digits(id)
}

/// Relies on std's string formatting for `u32`: it renders exactly the
/// decimal digits of the value, most significant first, no leading zeros.
#[verifier::external_body]
pub fn article_title(id: u32) -> (r: String)
    ensures
        r@ == title_of(id as int),
{
    format!("Base article {}", id)
}

/// The tag order is faithful: each tag sits at its own index in `all_kinds`,
/// so distinct kinds never share a histogram slot.
pub proof fn lemma_kind_indexing(k: RequestKind)
    ensures
        0 <= k.index_spec() < NUM_REQUEST_KINDS,
        all_kinds()[k.index_spec()] == k,
{
}

} // verus!
