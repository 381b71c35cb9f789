//! Yeelight bulbs: what a bulb says of itself when it answers a discovery
//! probe.

use vstd::prelude::*;
use vstd::utf8::encode_utf8;

use crate::modules::yeelight::headers::HeaderField;
use crate::modules::yeelight::parser::{
    absorb, agrees, read_color_mode, read_model, read_name, read_number, read_power, read_text,
    Field, ProtocolError,
};
use crate::text::str_eq;

pub mod commands;
pub mod headers;
pub mod parser;
pub mod scanner;

verus! {

/// The longest name a bulb can carry, in bytes.
pub const MAX_NAME_BYTES: usize = 64;

/// The product line of a bulb.
#[derive(Debug, Clone, Copy, PartialEq, Eq, Structural)]
pub enum Model {
    White,
    Color,
    Unknown,
}

/// Whether a bulb is switched on.
#[derive(Debug, Clone, Copy, PartialEq, Eq, Structural)]
pub enum Power {
    On,
    Off,
    Unknown,
}

/// How a bulb currently makes its light; it tells which of the colour
/// fields of a descriptor is meaningful.
#[derive(Debug, Clone, Copy, PartialEq, Eq, Structural)]
pub enum ColorMode {
    /// The `rgb` field holds the colour.
    Color,
    /// The `ct` field holds the colour temperature.
    Temperature,
    /// The `hue` and `sat` fields hold the colour.
    HSV,
    Unknown,
}

/// What a descriptor holds, as mathematical values.
pub struct BulbView {
    pub model: Model,
    pub id: Seq<char>,
    pub fw_version: Seq<char>,
    pub power: Power,
    pub bright: u8,
    pub color_mode: ColorMode,
    pub ct: u16,
    pub rgb: u32,
    pub hue: u16,
    pub sat: u8,
    pub name: Seq<char>,
}

impl BulbView {
    /// The descriptor of a bulb of which nothing is known: every field at its
    /// default.
    pub open spec fn blank() -> BulbView {
        BulbView {
            model: Model::Unknown,
            id: Seq::empty(),
            fw_version: Seq::empty(),
            power: Power::Unknown,
            bright: 0,
            color_mode: ColorMode::Unknown,
            ct: 0,
            rgb: 0,
            hue: 0,
            sat: 0,
            name: Seq::empty(),
        }
    }

    /// The ranges that the fields of every descriptor keep. A brightness of 0
    /// stands for a bulb that announced none.
    pub open spec fn well_formed(self) -> bool {
        &&& self.bright <= 100
        &&& self.hue <= 359
        &&& self.sat <= 100
        &&& encode_utf8(self.name).len() <= MAX_NAME_BYTES
    }
}

/// A snapshot of one bulb, made from one discovery reply. It is never
/// changed: the next reply of the bulb makes the next snapshot.
#[derive(Debug, PartialEq, Eq)]
pub struct YeelightBulb {
    model: Model,
    id: String,
    fw_version: String,
    power: Power,
    bright: u8,
    color_mode: ColorMode,
    ct: u16,
    rgb: u32,
    hue: u16,
    sat: u8,
    name: String,
}

impl View for YeelightBulb {
    type V = BulbView;

    closed spec fn view(&self) -> BulbView {
        BulbView {
            model: self.model,
            id: self.id@,
            fw_version: self.fw_version@,
            power: self.power,
            bright: self.bright,
            color_mode: self.color_mode,
            ct: self.ct,
            rgb: self.rgb,
            hue: self.hue,
            sat: self.sat,
            name: self.name@,
        }
    }
}

impl Clone for YeelightBulb {
    fn clone(&self) -> (copy: YeelightBulb)
        ensures
            copy@ == self@,
    {
        proof {
            use_type_invariant(self);
        }
        YeelightBulb {
            model: self.model,
            id: self.id.clone(),
            fw_version: self.fw_version.clone(),
            power: self.power,
            bright: self.bright,
            color_mode: self.color_mode,
            ct: self.ct,
            rgb: self.rgb,
            hue: self.hue,
            sat: self.sat,
            name: self.name.clone(),
        }
    }
}

impl YeelightBulb {
    #[verifier::type_invariant]
    spec fn in_range(self) -> bool {
        self@.well_formed()
    }

    /// The descriptor with every field at its default.
    pub fn blank() -> (bulb: YeelightBulb)
        ensures
            bulb@ == BulbView::blank(),
    {
        proof {
            assert(encode_utf8(Seq::<char>::empty()) =~= Seq::<u8>::empty());
        }
        YeelightBulb {
            model: Model::Unknown,
            id: String::new(),
            fw_version: String::new(),
            power: Power::Unknown,
            bright: 0,
            color_mode: ColorMode::Unknown,
            ct: 0,
            rgb: 0,
            hue: 0,
            sat: 0,
            name: String::new(),
        }
    }

    /// Takes one more header line into the descriptor: a line with one of
    /// the known keys sets its field, any other line changes nothing.
    pub(crate) fn with_line(self, line: &HeaderField) -> (r: Result<YeelightBulb, ProtocolError>)
        ensures
            agrees(r, absorb(self@, line@.0, line@.1)),
    {
        proof {
            use_type_invariant(&self);
        }
        let mut bulb = self;
        let key = line.name.as_str();
        let value = line.value.as_slice();
        if str_eq(key, "id") {
            match read_text(value, Field::Id) {
                Ok(id) => {
                    bulb.id = id;
                },
                Err(e) => {
                    return Err(e);
                },
            }
        } else if str_eq(key, "model") {
            bulb.model = read_model(value);
        } else if str_eq(key, "fw_ver") {
            match read_text(value, Field::FwVer) {
                Ok(version) => {
                    bulb.fw_version = version;
                },
                Err(e) => {
                    return Err(e);
                },
            }
        } else if str_eq(key, "power") {
            bulb.power = read_power(value);
        } else if str_eq(key, "bright") {
            match read_number(value, Field::Bright, 1, 100) {
                Ok(n) => {
                    bulb.bright = n as u8;
                },
                Err(e) => {
                    return Err(e);
                },
            }
        } else if str_eq(key, "color_mode") {
            bulb.color_mode = read_color_mode(value);
        } else if str_eq(key, "ct") {
            match read_number(value, Field::Ct, 0, 0xffff) {
                Ok(n) => {
                    bulb.ct = n as u16;
                },
                Err(e) => {
                    return Err(e);
                },
            }
        } else if str_eq(key, "rgb") {
            match read_number(value, Field::Rgb, 0, u32::MAX) {
                Ok(n) => {
                    bulb.rgb = n;
                },
                Err(e) => {
                    return Err(e);
                },
            }
        } else if str_eq(key, "hue") {
            match read_number(value, Field::Hue, 0, 359) {
                Ok(n) => {
                    bulb.hue = n as u16;
                },
                Err(e) => {
                    return Err(e);
                },
            }
        } else if str_eq(key, "sat") {
            match read_number(value, Field::Sat, 0, 100) {
                Ok(n) => {
                    bulb.sat = n as u8;
                },
                Err(e) => {
                    return Err(e);
                },
            }
        } else if str_eq(key, "name") {
            match read_name(value) {
                Ok(name) => {
                    bulb.name = name;
                },
                Err(e) => {
                    return Err(e);
                },
            }
        }
        Ok(bulb)
    }

    /// The product line.
    pub fn model(&self) -> (model: Model)
        ensures
            model == self@.model,
            self@.well_formed(),
    {
        proof {
            use_type_invariant(self);
        }
        self.model
    }

    /// The identifier of the bulb.
    pub fn id(&self) -> (id: &String)
        ensures
            id@ == self@.id,
    {
        &self.id
    }

    /// The firmware version.
    pub fn fw_version(&self) -> (version: &String)
        ensures
            version@ == self@.fw_version,
    {
        &self.fw_version
    }

    /// Whether the bulb is switched on.
    pub fn power(&self) -> (power: Power)
        ensures
            power == self@.power,
    {
        self.power
    }

    /// The brightness in percent, 1 to 100, or 0 where the bulb announced
    /// none.
    pub fn bright(&self) -> (bright: u8)
        ensures
            bright == self@.bright,
            bright <= 100,
    {
        proof {
            use_type_invariant(self);
        }
        self.bright
    }

    /// How the bulb makes its light.
    pub fn color_mode(&self) -> (mode: ColorMode)
        ensures
            mode == self@.color_mode,
    {
        self.color_mode
    }

    /// The colour temperature; it is meaningful in temperature mode.
    pub fn ct(&self) -> (ct: u16)
        ensures
            ct == self@.ct,
    {
        self.ct
    }

    /// The colour as one number; it is meaningful in colour mode.
    pub fn rgb(&self) -> (rgb: u32)
        ensures
            rgb == self@.rgb,
    {
        self.rgb
    }

    /// The hue, 0 to 359; it is meaningful in HSV mode.
    pub fn hue(&self) -> (hue: u16)
        ensures
            hue == self@.hue,
            hue <= 359,
    {
        proof {
            use_type_invariant(self);
        }
        self.hue
    }

    /// The saturation, 0 to 100; it is meaningful in HSV mode.
    pub fn sat(&self) -> (sat: u8)
        ensures
            sat == self@.sat,
            sat <= 100,
    {
        proof {
            use_type_invariant(self);
        }
        self.sat
    }

    /// The name that the bulb carries, of at most 64 bytes.
    pub fn name(&self) -> (name: &String)
        ensures
            name@ == self@.name,
            encode_utf8(name@).len() <= MAX_NAME_BYTES,
    {
        proof {
            use_type_invariant(self);
        }
        &self.name
    }
}

} // verus!
