use vstd::prelude::*;
use rand::Rng;
use crate::decimal::{decimal, decimal_reads_back, digits_value, is_digit, push_decimal};

verus! {

/// What the clicker keeps between runs: how many times the cat has meowed.
#[derive(Debug, Clone, Copy, PartialEq, Eq, Structural)]
pub struct Config {
    pub meows: u64,
}

impl Default for Config {
    /// No meows yet.
    fn default() -> (c: Config)
        ensures
            c.meows == 0,
    {
        Config { meows: 0 }
    }
}

/// The configuration to start from: the one read back from disk, or the
/// default where the file was missing or unreadable.
pub fn config_or_default(loaded: Option<Config>) -> (c: Config)
    ensures
        c == (match loaded {
            Some(x) => x,
            None => Config { meows: 0 },
        }),
{
    match loaded {
        Some(x) => x,
        None => Config { meows: 0 },
    }
}

/// The cat picture on the button.
#[derive(Debug, Clone, Copy, PartialEq, Eq, Structural)]
pub enum Icon {
    /// `static.png`
    Resting,
    /// `static2.png`, shown for a moment after each click.
    Meowing,
}

/// The image file of an icon, in the assets directory.
pub fn icon_file(icon: Icon) -> (name: &'static str)
    ensures
        name@ == (match icon {
            Icon::Resting => "static.png"@,
            Icon::Meowing => "static2.png"@,
        }),
{
    match icon {
        Icon::Resting => "static.png",
        Icon::Meowing => "static2.png",
    }
}

/// The label under the button for a count.
pub open spec fn label_of(count: nat) -> Seq<char> {
    "Meows: "@ + decimal(count)
}

/// The sound file for the meow numbered `n`.
pub open spec fn sound_of(n: nat) -> Seq<char> {
    "meow"@ + decimal(n) + ".mp3"@
}

/// The label under the button: `Meows: ` and the count in decimal.
pub fn meow_label(count: u64) -> (s: String)
    ensures
        s@ == label_of(count as nat),
{
    let mut s = String::from_str("Meows: ");
    push_decimal(&mut s, count);
    s
}

/// The file name of meow sound number `n`.
pub fn meow_sound_file(n: u8) -> (s: String)
    requires
        1 <= n <= 4,
    ensures
        s@ == sound_of(n as nat),
{
    let mut s = String::from_str("meow");
    push_decimal(&mut s, n as u64);
    s.append(".mp3");
    s
}

/// How long the meowing picture stays before the resting one comes back.
pub const RESTORE_AFTER_MS: u64 = 100;

/// What the window is to do after a click.
#[derive(Debug, PartialEq, Eq)]
pub struct MeowEffects {
    /// Write this configuration to disk.
    pub save: Config,
    /// Set this text on the label.
    pub label: String,
    /// Play this sound file from the assets directory.
    pub sound: String,
    /// Show this picture on the button...
    pub icon: Icon,
    /// ...and after this many milliseconds report `restore`.
    pub restore_after_ms: u64,
}

/// The clicker: its count and the picture it shows.
#[derive(Debug, Clone, Copy, PartialEq, Eq, Structural)]
pub struct Clicker {
    pub meows: u64,
    pub icon: Icon,
}

/// `rand::thread_rng().gen_range(1..=4)` from the rand crate: a random number
/// from 1 to 4; which one is left to chance.
#[verifier::external_body]
fn roll_meow() -> (n: u8)
    ensures
        1 <= n <= 4,
{
    rand::thread_rng().gen_range(1u8..=4u8)
}

impl Clicker {
    /// The clicker as the window opens, counting on from the saved configuration.
    pub fn new(config: &Config) -> (c: Clicker)
        ensures
            c.meows == config.meows,
            c.icon == Icon::Resting,
    {
        Clicker { meows: config.meows, icon: Icon::Resting }
    }

    /// The label that shows the current count.
    pub fn label(&self) -> (s: String)
        ensures
            s@ == label_of(self.meows as nat),
    {
        meow_label(self.meows)
    }

    /// A click, with the meow sound numbered `roll` (1 to 4): the count goes up
    /// by one, is saved and shown, and the meowing picture appears for a moment.
    pub fn click_with(&mut self, roll: u8) -> (fx: MeowEffects)
        requires
            old(self).meows < u64::MAX,
            1 <= roll <= 4,
        ensures
            final(self).meows == old(self).meows + 1,
            final(self).icon == Icon::Meowing,
            fx.save == (Config { meows: final(self).meows }),
            fx.label@ == label_of(final(self).meows as nat),
            fx.sound@ == sound_of(roll as nat),
            fx.icon == Icon::Meowing,
            fx.restore_after_ms == RESTORE_AFTER_MS,
    {
        let count = self.meows + 1;
        self.meows = count;
        self.icon = Icon::Meowing;
        MeowEffects {
            save: Config { meows: count },
            label: meow_label(count),
            sound: meow_sound_file(roll),
            icon: Icon::Meowing,
            restore_after_ms: RESTORE_AFTER_MS,
        }
    }

    /// A click, with a meow sound picked at random among the four.
    pub fn click(&mut self) -> (fx: MeowEffects)
        requires
            old(self).meows < u64::MAX,
        ensures
            final(self).meows == old(self).meows + 1,
            final(self).icon == Icon::Meowing,
            fx.save == (Config { meows: final(self).meows }),
            fx.label@ == label_of(final(self).meows as nat),
            exists|n: nat| 1 <= n <= 4 && fx.sound@ == #[trigger] sound_of(n),
            fx.icon == Icon::Meowing,
            fx.restore_after_ms == RESTORE_AFTER_MS,
    {
        let roll = roll_meow();
        let fx = self.click_with(roll);
        assert(fx.sound@ == sound_of(roll as nat));
        fx
    }

    /// The moment after a click has passed: the resting picture comes back and
    /// the count stays.
    pub fn restore(&mut self) -> (icon: Icon)
        ensures
            final(self).meows == old(self).meows,
            final(self).icon == Icon::Resting,
            icon == Icon::Resting,
    {
        self.icon = Icon::Resting;
        Icon::Resting
    }
}

/// The label reads `Meows: ` followed by a numeral made of digits only, whose
/// value is the count itself: what is shown is the number of meows.
pub proof fn label_shows_count(n: nat)
    ensures
        label_of(n).len() > 7,
        label_of(n).subrange(0, 7) == "Meows: "@,
        digits_value(label_of(n).subrange(7, label_of(n).len() as int)) == n,
        forall|i: int| 7 <= i < label_of(n).len() ==> is_digit(#[trigger] label_of(n)[i]),
{
    reveal_strlit("Meows: ");
    decimal_reads_back(n);
    let l = label_of(n);
    assert(l.subrange(0, 7) =~= "Meows: "@);
    assert(l.subrange(7, l.len() as int) =~= decimal(n));
    assert forall|i: int| 7 <= i < l.len() implies is_digit(#[trigger] l[i]) by {
        assert(l[i] == decimal(n)[i - 7]);
    }
}

/// The sound file is `meow`, then a numeral of digits whose value is the roll,
/// then `.mp3`.
pub proof fn sound_names_its_roll(n: nat)
    ensures
        sound_of(n).len() > 8,
        sound_of(n).subrange(0, 4) == "meow"@,
        sound_of(n).subrange(sound_of(n).len() - 4, sound_of(n).len() as int) == ".mp3"@,
        digits_value(sound_of(n).subrange(4, sound_of(n).len() - 4)) == n,
        forall|i: int| 4 <= i < sound_of(n).len() - 4 ==> is_digit(#[trigger] sound_of(n)[i]),
{
    reveal_strlit("meow");
    reveal_strlit(".mp3");
    decimal_reads_back(n);
    let f = sound_of(n);
    let d = decimal(n);
    assert(f.subrange(0, 4) =~= "meow"@);
    assert(f.subrange(f.len() - 4, f.len() as int) =~= ".mp3"@);
    assert(f.subrange(4, f.len() - 4) =~= d);
    assert forall|i: int| 4 <= i < f.len() - 4 implies is_digit(#[trigger] f[i]) by {
        assert(f[i] == d[i - 4]);
    }
}

/// Different rolls play different files: each of the four meows can be heard.
pub proof fn sounds_differ(a: nat, b: nat)
    requires
        a != b,
    ensures
        sound_of(a) != sound_of(b),
{
    sound_names_its_roll(a);
    sound_names_its_roll(b);
    if sound_of(a) == sound_of(b) {
        assert(sound_of(a).subrange(4, sound_of(a).len() - 4) == sound_of(b).subrange(
            4,
            sound_of(b).len() - 4,
        ));
    }
}

} // verus!
