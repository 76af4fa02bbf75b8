//! The run's profile: who plays, in which mode, and the run's tallies,
//! convertible to the stored form the highscore list keeps.

use vstd::prelude::*;
use crate::game_mode::GameMode;
use crate::hero_class::HeroClass;

verus! {

/// The player character's gender; cosmetic, but part of the profile.
#[derive(Clone, Copy, Debug, PartialEq, Eq, Structural)]
pub enum Gender {
    Male,
    Female,
}

/// The hero-select buttons, one per class and gender pairing.
#[derive(Clone, Copy, Debug, PartialEq, Eq, Structural)]
pub enum HeroSelectSceneButton {
    MaleElf,
    FemaleElf,
    MaleKnight,
    FemaleKnight,
    MaleLizard,
    FemaleLizard,
    MaleWizard,
    FemaleWizard,
}

/// The class a hero-select button picks.
pub open spec fn hero_of_button(button: HeroSelectSceneButton) -> HeroClass {
    match button {
        HeroSelectSceneButton::MaleElf | HeroSelectSceneButton::FemaleElf => HeroClass::Elf,
        HeroSelectSceneButton::MaleKnight | HeroSelectSceneButton::FemaleKnight => HeroClass::Knight,
        HeroSelectSceneButton::MaleLizard | HeroSelectSceneButton::FemaleLizard => HeroClass::Lizard,
        HeroSelectSceneButton::MaleWizard | HeroSelectSceneButton::FemaleWizard => HeroClass::Wizard,
    }
}

/// The gender a hero-select button picks.
pub open spec fn gender_of_button(button: HeroSelectSceneButton) -> Gender {
    match button {
        HeroSelectSceneButton::MaleElf
        | HeroSelectSceneButton::MaleKnight
        | HeroSelectSceneButton::MaleLizard
        | HeroSelectSceneButton::MaleWizard => Gender::Male,
        _ => Gender::Female,
    }
}

/// What an RFC 3339 date-and-time string denotes: its whole seconds since
/// the Unix epoch, or nothing when the string does not parse. Parsing is a
/// pure function of the string, so the meaning can be named without being
/// written out.
pub uninterp spec fn rfc3339_unix(s: Seq<char>) -> Option<i64>;

/// Relies on chrono's `Local::now` and `DateTime::to_rfc3339` for the
/// system clock's current moment as an RFC 3339 string. The clock is
/// outside the model, so nothing is promised of the value.
#[verifier::external_body]
fn local_now_rfc3339() -> String {
    chrono::Local::now().to_rfc3339()
}

/// Relies on chrono's `DateTime::parse_from_rfc3339`, whose outcome depends
/// on the string alone, converting the parsed moment to its whole-second
/// Unix timestamp.
#[verifier::external_body]
fn rfc3339_to_unix_seconds(s: &str) -> (seconds: Option<i64>)
    ensures
        seconds == rfc3339_unix(s@),
{
    match chrono::DateTime::parse_from_rfc3339(s) {
        Ok(parsed) => Some(parsed.timestamp()),
        Err(_) => None,
    }
}

/// The live profile of one run.
#[derive(Clone, Debug, PartialEq, Eq)]
pub struct Profile {
    pub name: String,
    pub game_mode: GameMode,
    pub hero_class: HeroClass,
    pub gender: Gender,
    pub total_killed_monsters: usize,
    pub total_cleared_rooms: usize,
    pub total_cleared_waves: usize,
    pub start_time: String,
    pub end_time: String,
    pub is_run_completed: bool,
    pub is_run_finished: bool,
}

/// The finished form a profile is stored in, with the run's length in
/// whole seconds.
#[derive(Clone, Debug, PartialEq, Eq)]
pub struct StoredProfile {
    pub name: String,
    pub game_mode: GameMode,
    pub hero_class: HeroClass,
    pub gender: Gender,
    pub total_cleared_rooms: usize,
    pub total_killed_monsters: usize,
    pub total_cleared_waves: usize,
    pub date: String,
    pub playtime: i64,
}

impl Profile {
    /// Opens a fresh profile at the current moment: default selections,
    /// all tallies at zero, and both timestamps equal to the start.
    pub fn new() -> (profile: Profile)
        ensures
            profile.name@ == Seq::<char>::empty(),
            profile.game_mode == GameMode::ClassicMode,
            profile.hero_class == HeroClass::Elf,
            profile.gender == Gender::Male,
            profile.total_killed_monsters == 0,
            profile.total_cleared_rooms == 0,
            profile.total_cleared_waves == 0,
            profile.end_time@ == profile.start_time@,
            !profile.is_run_completed,
            !profile.is_run_finished,
    {
        let start_time: String = local_now_rfc3339();
        Profile {
            name: String::new(),
            game_mode: GameMode::ClassicMode,
            hero_class: HeroClass::Elf,
            gender: Gender::Male,
            total_cleared_rooms: 0,
            total_killed_monsters: 0,
            total_cleared_waves: 0,
            end_time: start_time.clone(),
            start_time,
            is_run_completed: false,
            is_run_finished: false,
        }
    }

    /// Fixes the mode the run is played in.
    pub fn set_game_mode(&mut self, game_mode: GameMode)
        ensures
            *final(self) == (Profile { game_mode, ..*old(self) }),
    {
        self.game_mode = game_mode;
    }

    /// Applies a hero-select button: it picks both class and gender.
    pub fn set_hero(&mut self, button: HeroSelectSceneButton)
        ensures
            *final(self) == (Profile {
                hero_class: hero_of_button(button),
                gender: gender_of_button(button),
                ..*old(self)
            }),
    {
        match button {
            HeroSelectSceneButton::MaleElf => {
                self.hero_class = HeroClass::Elf;
                self.gender = Gender::Male;
            },
            HeroSelectSceneButton::FemaleElf => {
                self.hero_class = HeroClass::Elf;
                self.gender = Gender::Female;
            },
            HeroSelectSceneButton::MaleKnight => {
                self.hero_class = HeroClass::Knight;
                self.gender = Gender::Male;
            },
            HeroSelectSceneButton::FemaleKnight => {
                self.hero_class = HeroClass::Knight;
                self.gender = Gender::Female;
            },
            HeroSelectSceneButton::MaleLizard => {
                self.hero_class = HeroClass::Lizard;
                self.gender = Gender::Male;
            },
            HeroSelectSceneButton::FemaleLizard => {
                self.hero_class = HeroClass::Lizard;
                self.gender = Gender::Female;
            },
            HeroSelectSceneButton::MaleWizard => {
                self.hero_class = HeroClass::Wizard;
                self.gender = Gender::Male;
            },
            HeroSelectSceneButton::FemaleWizard => {
                self.hero_class = HeroClass::Wizard;
                self.gender = Gender::Female;
            },
        }
    }

    /// Renames the profile.
    pub fn set_name(&mut self, user_name: String)
        ensures
            *final(self) == (Profile { name: user_name, ..*old(self) }),
    {
        self.name = user_name;
    }

    /// Closes the run into its stored form. The playtime is the whole
    /// seconds between the two recorded timestamps; when either timestamp
    /// fails to parse, or their distance leaves the seconds counter's
    /// range, there is no stored form.
    pub fn convert_to_stored_profile(&self) -> (stored: Option<StoredProfile>)
        ensures
            stored is Some <==> {
                &&& rfc3339_unix(self.start_time@) is Some
                &&& rfc3339_unix(self.end_time@) is Some
                &&& i64::MIN <= rfc3339_unix(self.end_time@)->0 - rfc3339_unix(self.start_time@)->0
                    <= i64::MAX
            },
            stored is Some ==> {
                &&& stored->0.name@ == self.name@
                &&& stored->0.game_mode == self.game_mode
                &&& stored->0.hero_class == self.hero_class
                &&& stored->0.gender == self.gender
                &&& stored->0.total_cleared_rooms == self.total_cleared_rooms
                &&& stored->0.total_killed_monsters == self.total_killed_monsters
                &&& stored->0.total_cleared_waves == self.total_cleared_waves
                &&& stored->0.date@ == self.start_time@
                &&& stored->0.playtime == rfc3339_unix(self.end_time@)->0
                    - rfc3339_unix(self.start_time@)->0
            },
    {
        let start_seconds: Option<i64> = rfc3339_to_unix_seconds(self.start_time.as_str());
        let end_seconds: Option<i64> = rfc3339_to_unix_seconds(self.end_time.as_str());
        match (start_seconds, end_seconds) {
            (Some(start), Some(end)) => match end.checked_sub(start) {
                Some(playtime) => Some(StoredProfile {
                    name: self.name.clone(),
                    game_mode: self.game_mode,
                    hero_class: self.hero_class,
                    gender: self.gender,
                    total_cleared_rooms: self.total_cleared_rooms,
                    total_killed_monsters: self.total_killed_monsters,
                    total_cleared_waves: self.total_cleared_waves,
                    date: self.start_time.clone(),
                    playtime,
                }),
                None => None,
            },
            _ => None,
        }
    }
}

} // verus!
