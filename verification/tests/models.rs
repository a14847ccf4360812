use anime_recommend::models::{MediaType, ParseError, Status};
use std::str::FromStr;

#[test]
fn test_mediatype_from_str() {
    assert_eq!(MediaType::from_str("Novel"), Ok(MediaType::Novel));
    assert_eq!(MediaType::from_str("Game"), Ok(MediaType::Game));
    assert_eq!(MediaType::from_str("InvalidStr"), Err(ParseError));
}

#[test]
fn test_status_from_str() {
    assert_eq!(Status::from_str("NotStarted"), Ok(Status::NotStarted));
    assert_eq!(Status::from_str("Completed"), Ok(Status::Completed));
    assert_eq!(Status::from_str("completed"), Err(ParseError));
}

#[test]
fn test_mediatype_as_str() {
    assert_eq!(MediaType::Novel.as_str(), "Novel");
    assert_eq!(MediaType::Game.as_str(), "Game");
}

#[test]
fn test_status_as_str() {
    assert_eq!(Status::InProgress.as_str(), "InProgress");
    assert_eq!(Status::Completed.as_str(), "Completed");
}

#[test]
fn media_type_names_round_trip() {
    for m in [MediaType::Novel, MediaType::Anime, MediaType::Manga, MediaType::Game] {
        assert_eq!(MediaType::from_str(m.as_str()), Ok(m));
    }
}

#[test]
fn status_names_round_trip() {
    for s in [Status::NotStarted, Status::InProgress, Status::Completed] {
        assert_eq!(Status::from_str(s.as_str()), Ok(s));
    }
}

#[test]
fn parse_rejects_near_misses() {
    assert_eq!(MediaType::from_str("anime"), Err(ParseError));
    assert_eq!(MediaType::from_str(" Anime"), Err(ParseError));
    assert_eq!(MediaType::from_str(""), Err(ParseError));
    assert_eq!(Status::from_str("InProgres"), Err(ParseError));
    assert_eq!(Status::from_str("NotStartedX"), Err(ParseError));
}

#[test]
fn parse_through_std_trait() {
    assert_eq!("Manga".parse::<MediaType>(), Ok(MediaType::Manga));
    assert_eq!("InProgress".parse::<Status>(), Ok(Status::InProgress));
    assert_eq!("x".parse::<Status>(), Err(ParseError));
}

#[test]
fn parse_error_message() {
    assert_eq!(ParseError.message(), "無効な文字列です");
}
