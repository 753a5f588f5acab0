use vstd::prelude::*;
use crate::av_info::AudioVideoInfo;

verus! {

/// What a game image holds, as plain values.
pub ghost struct GameDataView {
    pub path: Option<Seq<char>>,
    pub data: Option<Seq<u8>>,
}

/// A game as the frontend hands it over: where its file lies, its contents,
/// both or neither. The contents are borrowed from the frontend.
pub struct GameData<'a> {
    path: Option<String>,
    data: Option<&'a [u8]>,
}

impl<'a> View for GameData<'a> {
    type V = GameDataView;

    closed spec fn view(&self) -> GameDataView {
        GameDataView {
            path: match self.path {
                Some(path) => Some(path@),
                None => None,
            },
            data: match self.data {
                Some(data) => Some(data@),
                None => None,
            },
        }
    }
}

/// The contents that count as present: those with at least one byte.
pub open spec fn present_data(data: Option<Seq<u8>>) -> Option<Seq<u8>> {
    match data {
        Some(bytes) => if bytes.len() > 0 {
            Some(bytes)
        } else {
            None
        },
        None => None,
    }
}

impl<'a> GameData<'a> {
    /// A game image with the given path and contents.
    pub fn new(path: Option<String>, data: Option<&'a [u8]>) -> (game: GameData<'a>)
        ensures
            game@.path == (match path {
                Some(path) => Some(path@),
                None => None,
            }),
            game@.data == (match data {
                Some(data) => Some(data@),
                None => None,
            }),
    {
        GameData { path, data }
    }

    /// The game image for what the frontend sent: a path where it sent one,
    /// contents where it sent at least one byte.
    pub fn from_host(path: Option<&str>, data: Option<&'a [u8]>) -> (game: GameData<'a>)
        ensures
            game@.path == (match path {
                Some(path) => Some(path@),
                None => None,
            }),
            game@.data == present_data(
                match data {
                    Some(data) => Some(data@),
                    None => None,
                },
            ),
    {
        let path = match path {
            Some(path) => Some(path.to_owned()),
            None => None,
        };
        let data = match data {
            Some(data) => if data.len() > 0 {
                Some(data)
            } else {
                None
            },
            None => None,
        };
        GameData { path, data }
    }

    /// The game image without path and contents.
    pub fn empty() -> (game: GameData<'a>)
        ensures
            game@ == (GameDataView { path: None, data: None }),
    {
        GameData { path: None, data: None }
    }

    /// Where the game's file lies, if the frontend said so.
    pub fn path(&self) -> (path: Option<&str>)
        ensures
            self@.path == (match path {
                Some(path) => Some(path@),
                None => None,
            }),
    {
        match &self.path {
            Some(path) => Some(path.as_str()),
            None => None,
        }
    }

    /// The game's contents, if the frontend sent them.
    pub fn data(&self) -> (data: Option<&[u8]>)
        ensures
            self@.data == (match data {
                Some(data) => Some(data@),
                None => None,
            }),
    {
        match self.data {
            Some(data) => Some(data),
            None => None,
        }
    }

    /// Whether the image holds neither path nor contents.
    pub fn is_empty(&self) -> (empty: bool)
        ensures
            empty == (self@.path.is_none() && self@.data.is_none()),
    {
        self.path.is_none() && self.data.is_none()
    }
}

/// A core's answer to a game: the description of its video and audio, or the
/// game handed back.
pub enum LoadGameResult<'a> {
    Success(AudioVideoInfo),
    Failed(GameData<'a>),
}

} // verus!
