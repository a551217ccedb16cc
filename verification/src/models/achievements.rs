//! The admin form that creates an achievement: its fields, read one at a time.
use vstd::prelude::*;
use crate::trusted::{string_from_utf8, parse_i32, parsed_i32, new_uuid_v4_string};

verus! {

/// What the form has given of an achievement so far.
#[derive(Debug)]
pub struct Achievement {
    pub name: Option<String>,
    pub description: Option<String>,
    pub tier: Option<i32>,
    pub unlock_code: Option<String>,
}

/// The state of reading the form: whether the admin code matched, the icon,
/// and the achievement.
#[derive(Debug)]
pub struct AchievementForm {
    pub authorised: bool,
    pub image_data: Option<Vec<u8>>,
    pub achievement: Achievement,
}

/// What reading a field leads to.
#[derive(Debug, Clone, Copy, PartialEq, Eq, Structural)]
pub enum FieldStep {
    /// Read the next field.
    Continue,
    /// An unknown field: stop reading, and create nothing.
    Stop,
    /// A field whose value could not be read (text that is not UTF-8, or a tier
    /// that is not a number); this case is not handled yet.
    Unhandled,
}

/// A new, empty form.
pub fn new_achievement_form() -> (form: AchievementForm)
    ensures
        !form.authorised,
        form.image_data is None,
        form.achievement.name is None,
        form.achievement.description is None,
        form.achievement.tier is None,
        form.achievement.unlock_code is None,
{
    AchievementForm {
        authorised: false,
        image_data: None,
        achievement: Achievement { name: None, description: None, tier: None, unlock_code: None },
    }
}

/// The text that UTF-8 bytes encode, or `None` when they are not valid UTF-8.
pub open spec fn utf8_text(bytes: Seq<u8>) -> Option<Seq<char>> {
    if vstd::utf8::valid_utf8(bytes) {
        Some(vstd::utf8::decode_utf8(bytes))
    } else {
        None
    }
}

/// Reads one field of the form into its state: `admin_code` authorises the form
/// when it is the admin key (a wrong code is only logged); `icon` is the image;
/// `name`, `description` and `tier` fill the achievement; any other field stops
/// the reading.
pub fn admin_create_achievement_field(
    form: &mut AchievementForm,
    name: &String,
    data: Vec<u8>,
    admin_key: &String,
) -> (step: FieldStep)
    ensures
        name@ == "admin_code"@ ==> {
            &&& step == (if utf8_text(data@) is Some { FieldStep::Continue } else { FieldStep::Unhandled })
            &&& final(form).authorised == (old(form).authorised || utf8_text(data@) == Some(admin_key@))
            &&& final(form).image_data == old(form).image_data
            &&& final(form).achievement == old(form).achievement
        },
        name@ == "icon"@ ==> {
            &&& step == FieldStep::Continue
            &&& final(form).image_data matches Some(image) && image@ == data@
            &&& final(form).authorised == old(form).authorised
            &&& final(form).achievement == old(form).achievement
        },
        name@ == "name"@ ==> {
            &&& step == (if utf8_text(data@) is Some { FieldStep::Continue } else { FieldStep::Unhandled })
            &&& utf8_text(data@) matches Some(text) ==> (final(form).achievement.name matches Some(n) && n@ == text)
            &&& utf8_text(data@) is None ==> final(form).achievement.name == old(form).achievement.name
            &&& final(form).achievement.description == old(form).achievement.description
            &&& final(form).achievement.tier == old(form).achievement.tier
            &&& final(form).authorised == old(form).authorised
            &&& final(form).image_data == old(form).image_data
        },
        name@ == "description"@ ==> {
            &&& step == (if utf8_text(data@) is Some { FieldStep::Continue } else { FieldStep::Unhandled })
            &&& utf8_text(data@) matches Some(text) ==> (final(form).achievement.description matches Some(d) && d@ == text)
            &&& utf8_text(data@) is None ==> final(form).achievement.description == old(form).achievement.description
            &&& final(form).achievement.name == old(form).achievement.name
            &&& final(form).achievement.tier == old(form).achievement.tier
            &&& final(form).authorised == old(form).authorised
            &&& final(form).image_data == old(form).image_data
        },
        name@ == "tier"@ ==> {
            &&& step == (if (utf8_text(data@) matches Some(text) && parsed_i32(text) is Some) {
                FieldStep::Continue
            } else {
                FieldStep::Unhandled
            })
            &&& (utf8_text(data@) matches Some(text) && parsed_i32(text) is Some) ==> final(form).achievement.tier
                == parsed_i32(utf8_text(data@)->0)
            &&& !(utf8_text(data@) matches Some(text) && parsed_i32(text) is Some) ==> final(form).achievement.tier
                == old(form).achievement.tier
            &&& final(form).achievement.name == old(form).achievement.name
            &&& final(form).achievement.description == old(form).achievement.description
            &&& final(form).authorised == old(form).authorised
            &&& final(form).image_data == old(form).image_data
        },
        !(name@ == "admin_code"@ || name@ == "icon"@ || name@ == "name"@ || name@ == "description"@
            || name@ == "tier"@) ==> step == FieldStep::Stop && *final(form) == *old(form),
{
    proof {
        reveal_strlit("admin_code");
        reveal_strlit("icon");
        reveal_strlit("name");
        reveal_strlit("description");
        reveal_strlit("tier");
        assert("icon"@.len() == 4 && "admin_code"@.len() == 10 && "name"@.len() == 4);
        assert("description"@.len() == 11 && "tier"@.len() == 4);
        assert("icon"@[0] != "name"@[0] && "tier"@[0] != "name"@[0] && "tier"@[0] != "icon"@[0]);
    }
    if *name == String::from_str("admin_code") {
        match string_from_utf8(data) {
            Some(code) => {
                if code == *admin_key {
                    form.authorised = true;
                }
                FieldStep::Continue
            },
            None => FieldStep::Unhandled,
        }
    } else if *name == String::from_str("icon") {
        form.image_data = Some(data);
        FieldStep::Continue
    } else if *name == String::from_str("name") {
        match string_from_utf8(data) {
            Some(text) => {
                form.achievement.name = Some(text);
                FieldStep::Continue
            },
            None => FieldStep::Unhandled,
        }
    } else if *name == String::from_str("description") {
        match string_from_utf8(data) {
            Some(text) => {
                form.achievement.description = Some(text);
                FieldStep::Continue
            },
            None => FieldStep::Unhandled,
        }
    } else if *name == String::from_str("tier") {
        match string_from_utf8(data) {
            Some(text) => match parse_i32(text.as_str()) {
                Some(tier) => {
                    form.achievement.tier = Some(tier);
                    FieldStep::Continue
                },
                None => FieldStep::Unhandled,
            },
            None => FieldStep::Unhandled,
        }
    } else {
        FieldStep::Stop
    }
}

/// What is done once every field has been read.
#[derive(Debug, Clone, Copy, PartialEq, Eq, Structural)]
pub enum FormEnd {
    /// No icon was sent: nothing is created.
    NoImage,
    /// The form is authorised: the icon is written to a file.
    WriteImage,
    /// The form is not authorised; this case is not handled yet.
    Unauthorised,
}

/// Decides what the end of the form leads to.
pub fn admin_create_achievement_end(form: &AchievementForm) -> (end: FormEnd)
    ensures
        end == (if form.image_data is None {
            FormEnd::NoImage
        } else if form.authorised {
            FormEnd::WriteImage
        } else {
            FormEnd::Unauthorised
        }),
{
    if form.image_data.is_none() {
        FormEnd::NoImage
    } else if form.authorised {
        FormEnd::WriteImage
    } else {
        FormEnd::Unauthorised
    }
}

/// The name of the file that stores a new achievement icon: a random UUID
/// (36 characters) followed by `.png`.
pub fn achievement_image_filename() -> (name: String)
    ensures
        name@.len() == 40,
        name@.subrange(36, 40) == ".png"@,
{
    proof {
        reveal_strlit(".png");
    }
    let mut name = new_uuid_v4_string();
    name.append(".png");
    name
}

} // verus!
