//! Parts of a video that viewers have marked as skippable.

use vstd::prelude::*;

use crate::mpv::time::Time;
use crate::mpv::value::{Decode, Value};
use crate::text::str_eq;

verus! {

/// Why a part of a video may be skipped.
#[derive(Clone, Copy, Debug, PartialEq, Eq, Structural)]
pub enum Category {
    Sponsor,
    Selfpromo,
    Interaction,
    Intro,
    Outro,
    Preview,
    Hook,
    Filler,
}

impl Category {
    /// The name shown for the category.
    pub open spec fn label_text(self) -> Seq<char> {
        match self {
            Category::Sponsor => "Sponsor"@,
            Category::Selfpromo => "Self-Promo"@,
            Category::Interaction => "Interaction"@,
            Category::Intro => "Intro"@,
            Category::Outro => "Outro"@,
            Category::Preview => "Preview"@,
            Category::Hook => "Hook"@,
            Category::Filler => "Filler"@,
        }
    }

    /// The category that the service calls `name`.
    pub open spec fn named(name: Seq<char>) -> Option<Category> {
        if name == "sponsor"@ {
            Some(Category::Sponsor)
        } else if name == "selfpromo"@ {
            Some(Category::Selfpromo)
        } else if name == "interaction"@ {
            Some(Category::Interaction)
        } else if name == "intro"@ {
            Some(Category::Intro)
        } else if name == "outro"@ {
            Some(Category::Outro)
        } else if name == "preview"@ {
            Some(Category::Preview)
        } else if name == "hook"@ {
            Some(Category::Hook)
        } else if name == "filler"@ {
            Some(Category::Filler)
        } else {
            None
        }
    }

    /// The colour in which the category is drawn, as red, green and
    /// blue.
    pub open spec fn rgb(self) -> (u8, u8, u8) {
        match self {
            Category::Sponsor => (255, 215, 0),
            Category::Selfpromo => (135, 206, 250),
            Category::Interaction => (144, 238, 144),
            Category::Intro => (255, 182, 193),
            Category::Outro => (255, 160, 122),
            Category::Preview => (221, 160, 221),
            Category::Hook => (255, 105, 180),
            Category::Filler => (211, 211, 211),
        }
    }

    /// The name shown for the category.
    pub fn label(&self) -> (text: &'static str)
        ensures
            text@ == self.label_text(),
    {
        match self {
            Category::Sponsor => "Sponsor",
            Category::Selfpromo => "Self-Promo",
            Category::Interaction => "Interaction",
            Category::Intro => "Intro",
            Category::Outro => "Outro",
            Category::Preview => "Preview",
            Category::Hook => "Hook",
            Category::Filler => "Filler",
        }
    }

    /// Reads the service's name of a category.
    pub fn from_name(name: &str) -> (category: Option<Category>)
        ensures
            category == Category::named(name@),
    {
        if str_eq(name, "sponsor") {
            Some(Category::Sponsor)
        } else if str_eq(name, "selfpromo") {
            Some(Category::Selfpromo)
        } else if str_eq(name, "interaction") {
            Some(Category::Interaction)
        } else if str_eq(name, "intro") {
            Some(Category::Intro)
        } else if str_eq(name, "outro") {
            Some(Category::Outro)
        } else if str_eq(name, "preview") {
            Some(Category::Preview)
        } else if str_eq(name, "hook") {
            Some(Category::Hook)
        } else if str_eq(name, "filler") {
            Some(Category::Filler)
        } else {
            None
        }
    }

    /// The colour in which the category is drawn, as red, green and
    /// blue.
    pub fn color(&self) -> (rgb: (u8, u8, u8))
        ensures
            rgb == self.rgb(),
    {
        match self {
            Category::Sponsor => (255, 215, 0),
            Category::Selfpromo => (135, 206, 250),
            Category::Interaction => (144, 238, 144),
            Category::Intro => (255, 182, 193),
            Category::Outro => (255, 160, 122),
            Category::Preview => (221, 160, 221),
            Category::Hook => (255, 105, 180),
            Category::Filler => (211, 211, 211),
        }
    }
}

/// One skippable part of a video.
#[derive(Debug, PartialEq, Eq)]
pub struct SkipSegment {
    /// Where the part starts and where it ends.
    pub segment: (Time, Time),
    /// The name under which the service files the part.
    pub uuid: String,
    pub category: Category,
}

/// The two times of an array of exactly two numbers.
pub open spec fn time_pair(value: Value) -> Option<(Time, Time)> {
    match value {
        Value::Array(numbers) => if numbers@.len() == 2 {
            match (numbers@[0].time_value(), numbers@[1].time_value()) {
                (Some(start), Some(end)) => Some((start, end)),
                _ => None,
            }
        } else {
            None
        },
        _ => None,
    }
}

fn decode_time_pair(value: &Value) -> (pair: Option<(Time, Time)>)
    ensures
        pair == time_pair(*value),
{
    match value {
        Value::Array(numbers) => {
            if numbers.len() == 2 {
                match (numbers[0].as_time(), numbers[1].as_time()) {
                    (Some(start), Some(end)) => Some((start, end)),
                    _ => None,
                }
            } else {
                None
            }
        },
        _ => None,
    }
}

impl SkipSegment {
    /// Whether `time` lies in the part: at or after its start and before
    /// its end.
    pub open spec fn covers(self, time: Time) -> bool {
        self.segment.0@ <= time@ < self.segment.1@
    }

    /// Where the part starts.
    pub fn start(&self) -> (time: Time)
        ensures
            time == self.segment.0,
    {
        self.segment.0
    }

    /// Where the part ends.
    pub fn end(&self) -> (time: Time)
        ensures
            time == self.segment.1,
    {
        self.segment.1
    }

    /// Tells whether `time` lies in the part.
    pub fn contains(&self, time: Time) -> (inside: bool)
        ensures
            inside == self.covers(time),
    {
        self.start().le(time) && time.lt(self.end())
    }
}

impl Decode for SkipSegment {
    /// A part is an object with the members `segment`, an array of its
    /// start and its end, `UUID` and `category`.
    open spec fn parse(value: Value) -> Option<SkipSegment> {
        match (value.member("segment"@), value.member("UUID"@), value.member("category"@)) {
            (Some(segment), Some(Value::Text(uuid)), Some(Value::Text(category))) => match (
                time_pair(segment),
                Category::named(category@),
            ) {
                (Some(segment), Some(category)) => Some(SkipSegment { segment, uuid, category }),
                _ => None,
            },
            _ => None,
        }
    }

    fn decode(value: &Value) -> (item: Option<SkipSegment>) {
        match (value.get("segment"), value.get("UUID"), value.get("category")) {
            (Some(segment), Some(Value::Text(uuid)), Some(Value::Text(category))) => {
                match (decode_time_pair(segment), Category::from_name(category.as_str())) {
                    (Some(segment), Some(category)) => Some(
                        SkipSegment { segment, uuid: uuid.clone(), category },
                    ),
                    _ => None,
                }
            },
            _ => None,
        }
    }
}

/// The names of the categories that are asked for, as the service wants
/// them listed.
pub fn requested_categories() -> (list: &'static str)
    ensures
        list@ == "[\"sponsor\",\"selfpromo\",\"intro\",\"outro\"]"@,
{
    "[\"sponsor\",\"selfpromo\",\"intro\",\"outro\"]"
}

} // verus!
