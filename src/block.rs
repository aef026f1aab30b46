//! One segment of the status line: its fields and their JSON object form,
//! configuration paths that were checked to exist, and the kinds of sensor
//! that a configuration can name.
use vstd::prelude::*;
use crate::text::same_text;

verus! {

/// What `serde_json` writes for a string: the text quoted and escaped as a
/// JSON string literal.
pub uninterp spec fn json_quoted(s: Seq<char>) -> Seq<char>;

/// Relies on `serde_json::to_string` for a `str`: it writes the JSON string
/// literal of `s` into a `Vec<u8>`, which cannot fail.
#[verifier::external_body]
fn json_string(s: &str) -> (r: Option<String>)
    ensures
        r is Some,
        r matches Some(q) ==> q@ == json_quoted(s@),
{
    serde_json::to_string(s).ok()
}

/// One segment of the status line.
pub struct Block {
    pub name: String,
    pub background: Option<String>,
    pub colour: Option<String>,
    pub full_text: Option<String>,
    pub markup: Option<String>,
    pub separator: Option<bool>,
    pub separator_block_width: Option<usize>,
}

/// `,"key":value` for a string field that is set, nothing otherwise; `key`
/// holds the comma and the quoted key with its colon.
pub open spec fn text_member(key: Seq<char>, value: Option<String>) -> Seq<char> {
    match value {
        Some(s) => key + json_quoted(s@),
        None => Seq::empty(),
    }
}

pub open spec fn bool_text(b: bool) -> Seq<char> {
    if b {
        "true"@
    } else {
        "false"@
    }
}

/// The compact JSON object of a block: the name first, then each field that
/// is set, in declaration order.
pub open spec fn block_json(b: Block) -> Seq<char> {
    "{\"name\":"@ + json_quoted(b.name@) + text_member(",\"background\":"@, b.background)
        + text_member(",\"colour\":"@, b.colour) + text_member(",\"full_text\":"@, b.full_text)
        + text_member(",\"markup\":"@, b.markup) + match b.separator {
        Some(v) => ",\"separator\":"@ + bool_text(v),
        None => Seq::empty(),
    } + match b.separator_block_width {
        Some(w) => ",\"separator_block_width\":"@ + crate::text::decimal(w as nat),
        None => Seq::empty(),
    } + "}"@
}

/// Appends `,"key":value` for a string field that is set; false where the
/// value could not be quoted.
fn append_text_member(out: &mut String, key: &str, value: &Option<String>) -> (ok: bool)
    ensures
        ok,
        final(out)@ == old(out)@ + text_member(key@, *value),
{
    match value {
        Some(v) => match json_string(v.as_str()) {
            Some(q) => {
                out.append(key);
                out.append(q.as_str());
                true
            },
            None => false,
        },
        None => true,
    }
}

impl Block {
    /// A block with only a name, Pango markup where `pango` holds, and the
    /// default separator width of 18.
    pub fn new(name: String, pango: bool) -> (r: Block)
        ensures
            r.name@ == name@,
            r.background is None,
            r.colour is None,
            r.full_text is None,
            !pango ==> r.markup is None,
            pango ==> (r.markup matches Some(m) && m@ == "pango"@),
            r.separator is None,
            r.separator_block_width == Some(18usize),
    {
        Block {
            name,
            background: None,
            colour: None,
            full_text: None,
            markup: if pango {
                Some(String::from_str("pango"))
            } else {
                None
            },
            separator: None,
            separator_block_width: Some(18),
        }
    }

    /// The block as one compact JSON object, or `Error in '<name>'` where a
    /// field could not be written.
    pub fn to_string(&self) -> (r: String)
        ensures
            r@ == block_json(*self),
    {
        let mut out = String::from_str("{\"name\":");
        match json_string(self.name.as_str()) {
            Some(q) => out.append(q.as_str()),
            None => return self.error_text(),
        }
        if !append_text_member(&mut out, ",\"background\":", &self.background) {
            return self.error_text();
        }
        if !append_text_member(&mut out, ",\"colour\":", &self.colour) {
            return self.error_text();
        }
        if !append_text_member(&mut out, ",\"full_text\":", &self.full_text) {
            return self.error_text();
        }
        if !append_text_member(&mut out, ",\"markup\":", &self.markup) {
            return self.error_text();
        }
        match self.separator {
            Some(v) => {
                out.append(",\"separator\":");
                out.append(if v { "true" } else { "false" });
            },
            None => {},
        }
        match self.separator_block_width {
            Some(w) => {
                out.append(",\"separator_block_width\":");
                let digits = crate::text::decimal_string(w as u128);
                out.append(digits.as_str());
            },
            None => {},
        }
        out.append("}");
        out
    }

    fn error_text(&self) -> (r: String)
        ensures
            r@ == "Error in '"@ + self.name@ + "'"@,
    {
        let mut out = String::from_str("Error in '");
        out.append(self.name.as_str());
        out.append("'");
        out
    }
}

/// A configured file path that was found to exist.
pub struct ValidatedPath(pub String);

impl ValidatedPath {
    /// Accepts `value` where the path exists (`exists`, as the file system
    /// reported it), and otherwise gives the message
    /// `Path '<value>' does not exist`.
    pub fn validate(value: String, exists: bool) -> (r: Result<ValidatedPath, String>)
        ensures
            exists <==> r is Ok,
            r matches Ok(p) ==> p.0@ == value@,
            r matches Err(e) ==> e@ == "Path '"@ + value@ + "' does not exist"@,
    {
        if exists {
            Ok(ValidatedPath(value))
        } else {
            let mut e = String::from_str("Path '");
            e.append(value.as_str());
            e.append("' does not exist");
            Err(e)
        }
    }
}

/// The kinds of sensor that a configuration section can name.
#[derive(Clone, Copy, Debug, PartialEq, Eq, Structural)]
pub enum SensorKind {
    Battery,
    Brightness,
    Cpu,
    Memory,
    Network,
    Time,
    Volume,
}

/// The section name that selects each kind.
pub open spec fn kind_name(k: SensorKind) -> Seq<char> {
    match k {
        SensorKind::Battery => "battery"@,
        SensorKind::Brightness => "brightness"@,
        SensorKind::Cpu => "cpu"@,
        SensorKind::Memory => "memory"@,
        SensorKind::Network => "network"@,
        SensorKind::Time => "time"@,
        SensorKind::Volume => "volume"@,
    }
}

impl SensorKind {
    /// The kind whose section name is `name`, if there is one.
    pub fn from_name(name: &str) -> (r: Option<SensorKind>)
        ensures
            r matches Some(k) ==> kind_name(k) == name@,
            r is None ==> forall|k: SensorKind| kind_name(k) != name@,
    {
        if same_text(name, "battery") {
            Some(SensorKind::Battery)
        } else if same_text(name, "brightness") {
            Some(SensorKind::Brightness)
        } else if same_text(name, "cpu") {
            Some(SensorKind::Cpu)
        } else if same_text(name, "memory") {
            Some(SensorKind::Memory)
        } else if same_text(name, "network") {
            Some(SensorKind::Network)
        } else if same_text(name, "time") {
            Some(SensorKind::Time)
        } else if same_text(name, "volume") {
            Some(SensorKind::Volume)
        } else {
            None
        }
    }
}

} // verus!
