//! The voice catalog of a speech service, and the lookup of a voice in it.

use crate::text::same_text;
use vstd::prelude::*;

verus! {

/// One style of a speaker, with the id that the service knows it by.
#[derive(Debug)]
pub struct SpeakerStyle {
    pub name: String,
    pub id: i32,
}

/// A speaker of the catalog and its styles.
#[derive(Debug)]
pub struct Speaker {
    pub name: String,
    pub styles: Vec<SpeakerStyle>,
}

/// The index of the first speaker named `name` in `speakers` at or after
/// `i`, if any.
pub open spec fn first_speaker_from(speakers: Seq<Speaker>, name: Seq<char>, i: int) -> Option<int>
    decreases speakers.len() - i,
{
    if i < 0 || i >= speakers.len() {
        None
    } else if speakers[i].name@ == name {
        Some(i)
    } else {
        first_speaker_from(speakers, name, i + 1)
    }
}

pub open spec fn first_speaker(speakers: Seq<Speaker>, name: Seq<char>) -> Option<int> {
    first_speaker_from(speakers, name, 0)
}

/// The index of the first style named `name` in `styles` at or after `i`,
/// if any.
pub open spec fn first_style_from(styles: Seq<SpeakerStyle>, name: Seq<char>, i: int) -> Option<int>
    decreases styles.len() - i,
{
    if i < 0 || i >= styles.len() {
        None
    } else if styles[i].name@ == name {
        Some(i)
    } else {
        first_style_from(styles, name, i + 1)
    }
}

pub open spec fn first_style(styles: Seq<SpeakerStyle>, name: Seq<char>) -> Option<int> {
    first_style_from(styles, name, 0)
}

/// The id of the style `style_name` of the first speaker named
/// `speaker_name`.
pub open spec fn speaker_id(speakers: Seq<Speaker>, speaker_name: Seq<char>, style_name: Seq<char>) -> Option<i32> {
    match first_speaker(speakers, speaker_name) {
        Some(i) => match first_style(speakers[i].styles@, style_name) {
            Some(j) => Some(speakers[i].styles@[j].id),
            None => None,
        },
        None => None,
    }
}

fn find_speaker(speakers: &[Speaker], name: &str) -> (r: Option<usize>)
    ensures
        match r {
            Some(i) => i < speakers@.len() && first_speaker(speakers@, name@) == Some(i as int),
            None => first_speaker(speakers@, name@) is None,
        },
{
    let mut i: usize = 0;
    while i < speakers.len()
        invariant
            i <= speakers@.len(),
            first_speaker(speakers@, name@) == first_speaker_from(speakers@, name@, i as int),
        decreases speakers@.len() - i,
    {
        if same_text(speakers[i].name.as_str(), name) {
            return Some(i);
        }
        i += 1;
    }
    None
}

fn find_style(styles: &[SpeakerStyle], name: &str) -> (r: Option<usize>)
    ensures
        match r {
            Some(j) => j < styles@.len() && first_style(styles@, name@) == Some(j as int),
            None => first_style(styles@, name@) is None,
        },
{
    let mut j: usize = 0;
    while j < styles.len()
        invariant
            j <= styles@.len(),
            first_style(styles@, name@) == first_style_from(styles@, name@, j as int),
        decreases styles@.len() - j,
    {
        if same_text(styles[j].name.as_str(), name) {
            return Some(j);
        }
        j += 1;
    }
    None
}

/// The id of the style `style_name` of the first speaker named
/// `speaker_name`; `None` where there is no such speaker, or that speaker
/// has no such style.
pub fn find_speaker_id(speakers: &[Speaker], speaker_name: &str, style_name: &str) -> (r: Option<i32>)
    ensures
        r == speaker_id(speakers@, speaker_name@, style_name@),
{
    match find_speaker(speakers, speaker_name) {
        Some(i) => match find_style(speakers[i].styles.as_slice(), style_name) {
            Some(j) => Some(speakers[i].styles[j].id),
            None => None,
        },
        None => None,
    }
}

} // verus!
