//! The settings of a server, as they are read from its settings file.
//!
//! The file holds one setting in a line, as `name = value`. A line that
//! begins with `#` is a comment.

use vstd::prelude::*;
use vstd::string::*;
use vstd::std_specs::hash::DefaultHasherAdditionalSpecFns;
use std::collections::hash_map::DefaultHasher;
use std::hash::Hasher;

verus! {

/// The settings of a server.
#[derive(Clone, Debug, PartialEq, Eq)]
pub struct Settings {
    /// Path of the database that holds the world.
    pub database_path: String,
    /// Seed of the terrain of the world.
    pub seed: u64,
    /// Whether players can harm each other.
    pub pvp: bool,
    /// The largest render distance that the server provides for.
    pub render_distance: u32,
}

/// What `Settings` hold.
pub struct SettingsModel {
    pub database_path: Seq<char>,
    pub seed: u64,
    pub pvp: bool,
    pub render_distance: u32,
}

impl View for Settings {
    type V = SettingsModel;

    open spec fn view(&self) -> SettingsModel {
        SettingsModel {
            database_path: self.database_path@,
            seed: self.seed,
            pvp: self.pvp,
            render_distance: self.render_distance,
        }
    }
}

/// Why a settings file cannot be read.
#[derive(Clone, Debug, PartialEq, Eq)]
pub enum SettingsError {
    /// A line is neither a comment nor of the form `name = value`.
    Malformed { line_num: usize, line: String },
    /// The value of `pvp` is neither `true` nor `false`.
    InvalidPvp { value: String },
    /// A line sets what is not a setting.
    InvalidSetting { name: String, line: String },
}

/// What a `SettingsError` holds.
pub enum SettingsFault {
    Malformed { line_num: int, line: Seq<char> },
    InvalidPvp { value: Seq<char> },
    InvalidSetting { name: Seq<char>, line: Seq<char> },
}

impl View for SettingsError {
    type V = SettingsFault;

    open spec fn view(&self) -> SettingsFault {
        match self {
            SettingsError::Malformed { line_num, line } => SettingsFault::Malformed {
                line_num: *line_num as int,
                line: line@,
            },
            SettingsError::InvalidPvp { value } => SettingsFault::InvalidPvp { value: value@ },
            SettingsError::InvalidSetting { name, line } => SettingsFault::InvalidSetting {
                name: name@,
                line: line@,
            },
        }
    }
}

/// The settings of a server without a settings file.
pub open spec fn default_settings() -> SettingsModel {
    SettingsModel { database_path: "world.sqlite"@, seed: 1, pvp: false, render_distance: 16 }
}

/// Whether a character is white space: whether it has the Unicode property
/// `White_Space`.
pub open spec fn is_whitespace(c: char) -> bool {
    let code = c as u32;
    ||| 0x09 <= code <= 0x0d
    ||| code == 0x20
    ||| code == 0x85
    ||| code == 0xa0
    ||| code == 0x1680
    ||| 0x2000 <= code <= 0x200a
    ||| code == 0x2028
    ||| code == 0x2029
    ||| code == 0x202f
    ||| code == 0x205f
    ||| code == 0x3000
}

/// The first place from `from` on at which `text` holds `c`, or the length
/// of `text` if there is none.
pub open spec fn index_of(text: Seq<char>, c: char, from: int) -> int
    decreases text.len() - from,
{
    if from >= text.len() {
        text.len() as int
    } else if text[from] == c {
        from
    } else {
        index_of(text, c, from + 1)
    }
}

/// The first place from `from` on at which `text` holds no white space, or
/// the length of `text` if there is none.
pub open spec fn trim_start(text: Seq<char>, from: int) -> int
    decreases text.len() - from,
{
    if from >= text.len() {
        text.len() as int
    } else if !is_whitespace(text[from]) {
        from
    } else {
        trim_start(text, from + 1)
    }
}

/// The end of the part of `text` from `from` to `to` without the white space
/// at its end.
pub open spec fn trim_end(text: Seq<char>, from: int, to: int) -> int
    decreases to - from,
{
    if to <= from {
        from
    } else if !is_whitespace(text[to - 1]) {
        to
    } else {
        trim_end(text, from, to - 1)
    }
}

/// A text without the white space at its start and at its end.
pub open spec fn trimmed(text: Seq<char>) -> Seq<char> {
    let start = trim_start(text, 0);
    text.subrange(start, trim_end(text, start, text.len() as int))
}

/// The seed that a text stands for: the hash of its bytes.
pub open spec fn seed_of(value: Seq<char>) -> u64 {
    DefaultHasher::spec_finish(seq![vstd::utf8::encode_utf8(value)])
}

/// The settings after a line of the settings file was read, or why the line
/// cannot be read.
///
/// A comment changes nothing. Any other line sets what its name says to its
/// value, both without the white space around them: `world-name` the path
/// of the database, `seed` the seed, and `pvp` whether players can harm each
/// other.
pub open spec fn read_line(settings: SettingsModel, line_num: int, line: Seq<char>) -> Result<
    SettingsModel,
    SettingsFault,
> {
    let split = index_of(line, '=', 0);
    if line.len() > 0 && line[0] == '#' {
        Ok(settings)
    } else if split >= line.len() {
        Err(SettingsFault::Malformed { line_num, line })
    } else {
        let name = trimmed(line.subrange(0, split));
        let value = trimmed(line.subrange(split + 1, line.len() as int));
        if name == "world-name"@ {
            Ok(SettingsModel { database_path: "./"@ + value + ".sqlite"@, ..settings })
        } else if name == "seed"@ {
            Ok(SettingsModel { seed: seed_of(value), ..settings })
        } else if name == "pvp"@ {
            if value == "true"@ {
                Ok(SettingsModel { pvp: true, ..settings })
            } else if value == "false"@ {
                Ok(SettingsModel { pvp: false, ..settings })
            } else {
                Err(SettingsFault::InvalidPvp { value })
            }
        } else {
            Err(SettingsFault::InvalidSetting { name, line })
        }
    }
}

/// The settings after the first `n` lines of the settings file were read,
/// or why the first line that cannot be read cannot.
pub open spec fn read_lines(lines: Seq<Seq<char>>, n: int) -> Result<SettingsModel, SettingsFault>
    decreases n,
{
    if n <= 0 {
        Ok(default_settings())
    } else {
        match read_lines(lines, n - 1) {
            Ok(settings) => read_line(settings, n - 1, lines[n - 1]),
            Err(fault) => Err(fault),
        }
    }
}

/// The texts that lines hold.
pub open spec fn texts(lines: Seq<String>) -> Seq<Seq<char>> {
    lines.map_values(|line: String| line@)
}

/// Once a line cannot be read, the lines after it change nothing.
pub proof fn lemma_fault_stays(lines: Seq<Seq<char>>, n: int, m: int)
    requires
        0 <= n <= m,
        read_lines(lines, n) is Err,
    ensures
        read_lines(lines, m) == read_lines(lines, n),
    decreases m - n,
{
    if n < m {
        lemma_fault_stays(lines, n, m - 1);
    }
}

/// Whether a character is white space.
fn whitespace(c: char) -> (result: bool)
    ensures
        result == is_whitespace(c),
{
    let code = c as u32;
    (0x09 <= code && code <= 0x0d) || code == 0x20 || code == 0x85 || code == 0xa0 || code
        == 0x1680 || (0x2000 <= code && code <= 0x200a) || code == 0x2028 || code == 0x2029
        || code == 0x202f || code == 0x205f || code == 0x3000
}

/// The characters of a text.
fn chars_of(text: &str) -> (chars: Vec<char>)
    ensures
        chars@ == text@,
{
    let mut chars: Vec<char> = Vec::new();
    let length = text.unicode_len();
    let mut i: usize = 0;
    while i < length
        invariant
            i <= length,
            length == text@.len(),
            chars@ == text@.take(i as int),
        decreases length - i,
    {
        chars.push(text.get_char(i));
        assert(chars@ =~= text@.take(i + 1));
        i += 1;
    }
    assert(text@.take(length as int) =~= text@);
    chars
}

/// A text without the white space at its start and at its end.
fn trim(text: &str) -> (result: &str)
    ensures
        result@ == trimmed(text@),
{
    let chars = chars_of(text);
    let mut start: usize = 0;
    while start < chars.len() && whitespace(chars[start])
        invariant
            start <= chars.len(),
            trim_start(chars@, 0) == trim_start(chars@, start as int),
        decreases chars.len() - start,
    {
        start += 1;
    }
    let mut end: usize = chars.len();
    while end > start && whitespace(chars[end - 1])
        invariant
            start <= end <= chars.len(),
            trim_end(chars@, start as int, chars.len() as int) == trim_end(
                chars@,
                start as int,
                end as int,
            ),
        decreases end - start,
    {
        end -= 1;
    }
    text.substring_char(start, end)
}

/// Whether `text` reads `literal`.
fn reads(text: &str, literal: &str) -> (result: bool)
    ensures
        result == (text@ == literal@),
{
    text.to_owned() == literal.to_owned()
}

/// The seed that a text stands for.
fn hash_seed(value: &str) -> (seed: u64)
    ensures
        seed == seed_of(value@),
{
    let mut hasher = DefaultHasher::new();
    hasher.write(value.as_bytes());
    assert(hasher@ =~= seq![vstd::utf8::encode_utf8(value@)]);
    hasher.finish()
}

impl Default for Settings {
    fn default() -> (settings: Settings)
        ensures
            settings@ == default_settings(),
    {
        Settings {
            database_path: "world.sqlite".to_owned(),
            seed: 1,
            pvp: false,
            render_distance: 16,
        }
    }
}

impl Settings {
    /// Reads one line of the settings file into the settings.
    fn read(&mut self, line_num: usize, line: &str) -> (result: Result<(), SettingsError>)
        ensures
            match read_line(old(self)@, line_num as int, line@) {
                Ok(settings) => result is Ok && final(self)@ == settings,
                Err(fault) => result is Err && result->Err_0@ == fault,
            },
    {
        let chars = chars_of(line);
        if chars.len() > 0 && chars[0] == '#' {
            return Ok(());
        }
        let mut split: usize = 0;
        while split < chars.len() && chars[split] != '='
            invariant
                split <= chars.len(),
                index_of(chars@, '=', 0) == index_of(chars@, '=', split as int),
            decreases chars.len() - split,
        {
            split += 1;
        }
        if split >= chars.len() {
            return Err(SettingsError::Malformed { line_num, line: line.to_owned() });
        }
        let name = trim(line.substring_char(0, split));
        let value = trim(line.substring_char(split + 1, chars.len()));
        if reads(name, "world-name") {
            let mut database_path = "./".to_owned();
            database_path.append(value);
            database_path.append(".sqlite");
            self.database_path = database_path;
            Ok(())
        } else if reads(name, "seed") {
            self.seed = hash_seed(value);
            Ok(())
        } else if reads(name, "pvp") {
            if reads(value, "true") {
                self.pvp = true;
                Ok(())
            } else if reads(value, "false") {
                self.pvp = false;
                Ok(())
            } else {
                Err(SettingsError::InvalidPvp { value: value.to_owned() })
            }
        } else {
            Err(SettingsError::InvalidSetting { name: name.to_owned(), line: line.to_owned() })
        }
    }

    /// Reads the settings from the lines of a settings file.
    ///
    /// What no line sets is as in the default settings. Where a setting is
    /// set more than once, the last line counts. The first line that cannot
    /// be read ends the reading.
    pub fn load(lines: &Vec<String>) -> (result: Result<Settings, SettingsError>)
        ensures
            match read_lines(texts(lines@), lines.len() as int) {
                Ok(settings) => result is Ok && result->Ok_0@ == settings,
                Err(fault) => result is Err && result->Err_0@ == fault,
            },
    {
        let mut server_settings = Settings::default();
        let ghost all = texts(lines@);
        let mut i: usize = 0;
        while i < lines.len()
            invariant
                i <= lines.len(),
                all == texts(lines@),
                read_lines(all, i as int) == Ok::<SettingsModel, SettingsFault>(server_settings@),
            decreases lines.len() - i,
        {
            assert(all[i as int] == lines[i as int]@);
            match server_settings.read(i, lines[i].as_str()) {
                Ok(()) => {},
                Err(error) => {
                    proof {
                        lemma_fault_stays(all, i + 1, lines.len() as int);
                    }
                    return Err(error);
                },
            }
            i += 1;
        }
        Ok(server_settings)
    }

    /// The settings file that is written where there is none: the default
    /// settings, as comments.
    pub fn default_file() -> (contents: String)
        ensures
            contents@ == "#world-name = world.sqlite\n#pvp = false"@,
    {
        "#world-name = world.sqlite\n#pvp = false".to_owned()
    }
}

} // verus!
