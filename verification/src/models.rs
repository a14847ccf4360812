//! The data model of a tracked work: its media type, the user's viewing
//! status, and the conversions between those enums and the names stored in
//! the database.
use vstd::prelude::*;
use crate::text::{owned, text_eq};

verus! {

/// The kind of a work.
#[derive(Debug, PartialEq, Eq, Structural, Clone, Copy)]
pub enum MediaType {
    Novel,
    Anime,
    Manga,
    Game,
}

/// How far the user has got with a work.
#[derive(Debug, PartialEq, Eq, Structural, Clone, Copy)]
pub enum Status {
    NotStarted,
    InProgress,
    Completed,
}

/// A work as entered by hand: what is stored about it besides its status.
pub struct Work {
    pub title: String,
    pub author: String,
    pub description: String,
    pub episodes: Option<i32>,
    pub media_type: MediaType,
    pub genres: Vec<String>,
}

/// The error of parsing a name that is not one of an enum's names.
#[derive(Debug, PartialEq, Eq, Structural, Clone, Copy)]
pub struct ParseError;

/// The text a `ParseError` is shown with.
pub open spec fn parse_error_text() -> Seq<char> {
    "無効な文字列です"@
}

impl ParseError {
    /// The text this error is shown with.
    pub fn message(&self) -> (r: String)
        ensures
            r@ == parse_error_text(),
    {
        owned("無効な文字列です")
    }
}

/// The stored name of each media type.
pub open spec fn media_type_name(m: MediaType) -> Seq<char> {
    match m {
        MediaType::Novel => "Novel"@,
        MediaType::Anime => "Anime"@,
        MediaType::Manga => "Manga"@,
        MediaType::Game => "Game"@,
    }
}

/// The media type a name stands for: exactly the four stored names are
/// accepted, letter case included.
pub open spec fn media_type_of_name(s: Seq<char>) -> Result<MediaType, ParseError> {
    if s == "Novel"@ {
        Ok(MediaType::Novel)
    } else if s == "Anime"@ {
        Ok(MediaType::Anime)
    } else if s == "Manga"@ {
        Ok(MediaType::Manga)
    } else if s == "Game"@ {
        Ok(MediaType::Game)
    } else {
        Err(ParseError)
    }
}

/// The stored name of each status.
pub open spec fn status_name(st: Status) -> Seq<char> {
    match st {
        Status::NotStarted => "NotStarted"@,
        Status::InProgress => "InProgress"@,
        Status::Completed => "Completed"@,
    }
}

/// The status a name stands for: exactly the three stored names are
/// accepted, letter case included.
pub open spec fn status_of_name(s: Seq<char>) -> Result<Status, ParseError> {
    if s == "NotStarted"@ {
        Ok(Status::NotStarted)
    } else if s == "InProgress"@ {
        Ok(Status::InProgress)
    } else if s == "Completed"@ {
        Ok(Status::Completed)
    } else {
        Err(ParseError)
    }
}

impl MediaType {
    /// Parses a stored name.
    pub fn from_str(s: &str) -> (r: Result<MediaType, ParseError>)
        ensures
            r == media_type_of_name(s@),
    {
        if text_eq(s, "Novel") {
            Ok(MediaType::Novel)
        } else if text_eq(s, "Anime") {
            Ok(MediaType::Anime)
        } else if text_eq(s, "Manga") {
            Ok(MediaType::Manga)
        } else if text_eq(s, "Game") {
            Ok(MediaType::Game)
        } else {
            Err(ParseError)
        }
    }

    /// The name this media type is stored under.
    pub fn as_str(&self) -> (r: &str)
        ensures
            r@ == media_type_name(*self),
    {
        match self {
            MediaType::Novel => "Novel",
            MediaType::Anime => "Anime",
            MediaType::Manga => "Manga",
            MediaType::Game => "Game",
        }
    }
}

impl Status {
    /// Parses a stored name.
    pub fn from_str(s: &str) -> (r: Result<Status, ParseError>)
        ensures
            r == status_of_name(s@),
    {
        if text_eq(s, "NotStarted") {
            Ok(Status::NotStarted)
        } else if text_eq(s, "InProgress") {
            Ok(Status::InProgress)
        } else if text_eq(s, "Completed") {
            Ok(Status::Completed)
        } else {
            Err(ParseError)
        }
    }

    /// The name this status is stored under.
    pub fn as_str(&self) -> (r: &str)
        ensures
            r@ == status_name(*self),
    {
        match self {
            Status::NotStarted => "NotStarted",
            Status::InProgress => "InProgress",
            Status::Completed => "Completed",
        }
    }
}

impl std::str::FromStr for MediaType {
    type Err = ParseError;

    fn from_str(s: &str) -> (r: Result<MediaType, ParseError>)
        ensures
            r == media_type_of_name(s@),
    {
        MediaType::from_str(s)
    }
}

impl std::str::FromStr for Status {
    type Err = ParseError;

    fn from_str(s: &str) -> (r: Result<Status, ParseError>)
        ensures
            r == status_of_name(s@),
    {
        Status::from_str(s)
    }
}

/// Reading back the stored name of a media type gives that media type, and
/// no two media types share a name.
pub proof fn lemma_media_type_name_round_trip(m: MediaType)
    ensures
        media_type_of_name(media_type_name(m)) == Ok::<MediaType, ParseError>(m),
        forall|n: MediaType| media_type_name(n) == media_type_name(m) ==> n == m,
{
    reveal_strlit("Novel");
    reveal_strlit("Anime");
    reveal_strlit("Manga");
    reveal_strlit("Game");
    assert("Novel"@[0] != "Anime"@[0]);
    assert("Novel"@ != "Anime"@);
    assert("Novel"@[0] != "Manga"@[0]);
    assert("Novel"@ != "Manga"@);
    assert("Novel"@[0] != "Game"@[0]);
    assert("Novel"@ != "Game"@);
    assert("Anime"@[0] != "Manga"@[0]);
    assert("Anime"@ != "Manga"@);
    assert("Anime"@[0] != "Game"@[0]);
    assert("Anime"@ != "Game"@);
    assert("Manga"@[0] != "Game"@[0]);
    assert("Manga"@ != "Game"@);
}

/// A name that parses as a media type is that media type's stored name.
pub proof fn lemma_media_type_parse_exact(s: Seq<char>)
    ensures
        media_type_of_name(s) matches Ok(m) ==> media_type_name(m) == s,
{
}

/// Reading back the stored name of a status gives that status, and no two
/// statuses share a name.
pub proof fn lemma_status_name_round_trip(st: Status)
    ensures
        status_of_name(status_name(st)) == Ok::<Status, ParseError>(st),
        forall|n: Status| status_name(n) == status_name(st) ==> n == st,
{
    reveal_strlit("NotStarted");
    reveal_strlit("InProgress");
    reveal_strlit("Completed");
    assert("NotStarted"@[0] != "InProgress"@[0]);
    assert("NotStarted"@ != "InProgress"@);
    assert("NotStarted"@[0] != "Completed"@[0]);
    assert("NotStarted"@ != "Completed"@);
    assert("InProgress"@[0] != "Completed"@[0]);
    assert("InProgress"@ != "Completed"@);
}

/// A name that parses as a status is that status's stored name.
pub proof fn lemma_status_parse_exact(s: Seq<char>)
    ensures
        status_of_name(s) matches Ok(st) ==> status_name(st) == s,
{
}

/// The stored names are fixed: each media type is stored under its own
/// English name, spelled out character by character, and parsing accepts
/// exactly these four texts.
pub proof fn lemma_media_type_stored_names(s: Seq<char>)
    ensures
        media_type_name(MediaType::Novel) == seq!['N', 'o', 'v', 'e', 'l'],
        media_type_name(MediaType::Anime) == seq!['A', 'n', 'i', 'm', 'e'],
        media_type_name(MediaType::Manga) == seq!['M', 'a', 'n', 'g', 'a'],
        media_type_name(MediaType::Game) == seq!['G', 'a', 'm', 'e'],
        media_type_of_name(s) is Ok <==> (s == seq!['N', 'o', 'v', 'e', 'l'] || s == seq![
            'A',
            'n',
            'i',
            'm',
            'e',
        ] || s == seq!['M', 'a', 'n', 'g', 'a'] || s == seq!['G', 'a', 'm', 'e']),
{
    reveal_strlit("Novel");
    reveal_strlit("Anime");
    reveal_strlit("Manga");
    reveal_strlit("Game");
    assert("Novel"@ =~= seq!['N', 'o', 'v', 'e', 'l']);
    assert("Anime"@ =~= seq!['A', 'n', 'i', 'm', 'e']);
    assert("Manga"@ =~= seq!['M', 'a', 'n', 'g', 'a']);
    assert("Game"@ =~= seq!['G', 'a', 'm', 'e']);
}

/// The stored names are fixed: each status is stored under its own English
/// name, spelled out character by character, and parsing accepts exactly
/// these three texts.
pub proof fn lemma_status_stored_names(s: Seq<char>)
    ensures
        status_name(Status::NotStarted) == seq!['N', 'o', 't', 'S', 't', 'a', 'r', 't', 'e', 'd'],
        status_name(Status::InProgress) == seq!['I', 'n', 'P', 'r', 'o', 'g', 'r', 'e', 's', 's'],
        status_name(Status::Completed) == seq!['C', 'o', 'm', 'p', 'l', 'e', 't', 'e', 'd'],
        status_of_name(s) is Ok <==> (s == seq!['N', 'o', 't', 'S', 't', 'a', 'r', 't', 'e', 'd']
            || s == seq!['I', 'n', 'P', 'r', 'o', 'g', 'r', 'e', 's', 's'] || s == seq![
            'C',
            'o',
            'm',
            'p',
            'l',
            'e',
            't',
            'e',
            'd',
        ]),
{
    reveal_strlit("NotStarted");
    reveal_strlit("InProgress");
    reveal_strlit("Completed");
    assert("NotStarted"@ =~= seq!['N', 'o', 't', 'S', 't', 'a', 'r', 't', 'e', 'd']);
    assert("InProgress"@ =~= seq!['I', 'n', 'P', 'r', 'o', 'g', 'r', 'e', 's', 's']);
    assert("Completed"@ =~= seq!['C', 'o', 'm', 'p', 'l', 'e', 't', 'e', 'd']);
}

} // verus!
