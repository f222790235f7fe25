//! The configuration value that the rest of the library reads, and the
//! choice of the one heart-rate source that a run uses.

use vstd::prelude::*;
use crate::thresholds::{
    HeartRateLabel, heart_rate_text, random_index, render_template, select_label,
};

verus! {

/// The port on which the HTTP ingest source listens.
pub const DEFAULT_INGEST_PORT: u16 = 2333;

/// Settings of one run: where notifications go, which device to look for,
/// which source to use, and the label table.
pub struct Config {
    pub osc_host: String,
    pub osc_port: u16,
    pub heart_rate_device_name: Option<String>,
    pub heart_rate_device_address: Option<String>,
    pub apple_watch: bool,
    pub xiaomi_band: bool,
    /// The label table; among rows with equal bounds, the one written as
    /// the plain decimal bound is used, else the first.
    pub heart_rate_label: Vec<HeartRateLabel>,
}

/// The one source of heart-rate samples that a run uses.
pub enum SourceConfig {
    NamedBluetooth(String),
    AddressedBluetooth(String),
    HeuristicBluetooth,
    AdvertisementScan,
    HttpIngest(u16),
}

/// The source a configuration selects: advertisement scanning first, then
/// the HTTP ingest endpoint, then a connected device found by name, by
/// address, or by its advertised heart-rate service.
pub open spec fn selected_source(
    xiaomi_band: bool,
    apple_watch: bool,
    name: Option<Seq<char>>,
    address: Option<Seq<char>>,
) -> SourceKind {
    if xiaomi_band {
        SourceKind::AdvertisementScan
    } else if apple_watch {
        SourceKind::HttpIngest(DEFAULT_INGEST_PORT)
    } else if name is Some {
        SourceKind::NamedBluetooth(name->Some_0)
    } else if address is Some {
        SourceKind::AddressedBluetooth(address->Some_0)
    } else {
        SourceKind::HeuristicBluetooth
    }
}

/// The mathematical form of a `SourceConfig`.
pub ghost enum SourceKind {
    NamedBluetooth(Seq<char>),
    AddressedBluetooth(Seq<char>),
    HeuristicBluetooth,
    AdvertisementScan,
    HttpIngest(u16),
}

impl View for SourceConfig {
    type V = SourceKind;

    open spec fn view(&self) -> SourceKind {
        match self {
            SourceConfig::NamedBluetooth(n) => SourceKind::NamedBluetooth(n@),
            SourceConfig::AddressedBluetooth(a) => SourceKind::AddressedBluetooth(a@),
            SourceConfig::HeuristicBluetooth => SourceKind::HeuristicBluetooth,
            SourceConfig::AdvertisementScan => SourceKind::AdvertisementScan,
            SourceConfig::HttpIngest(p) => SourceKind::HttpIngest(*p),
        }
    }
}

pub open spec fn option_view(o: Option<String>) -> Option<Seq<char>> {
    match o {
        Some(s) => Some(s@),
        None => None,
    }
}

fn label(threshold: &str, templates: Vec<String>) -> (r: HeartRateLabel)
    ensures
        r.threshold@ == threshold@,
        r.templates == templates,
{
    HeartRateLabel { threshold: String::from_str(threshold), templates }
}

impl Default for Config {
    fn default() -> (r: Config)
        ensures
            r.osc_host@ == "127.0.0.1"@,
            r.osc_port == 9000,
            r.heart_rate_device_name is None,
            r.heart_rate_device_address is None,
            !r.apple_watch,
            !r.xiaomi_band,
            r.heart_rate_label@.len() == 6,
            r.heart_rate_label@[0].threshold@ == "70"@,
            r.heart_rate_label@[1].threshold@ == "80"@,
            r.heart_rate_label@[2].threshold@ == "100"@,
            r.heart_rate_label@[3].threshold@ == "130"@,
            r.heart_rate_label@[4].threshold@ == "150"@,
            r.heart_rate_label@[5].threshold@ == "999"@,
            r.heart_rate_label@[0].templates@.len() == 1,
            r.heart_rate_label@[1].templates@.len() == 1,
            r.heart_rate_label@[2].templates@.len() == 1,
            r.heart_rate_label@[3].templates@.len() == 1,
            r.heart_rate_label@[4].templates@.len() == 2,
            r.heart_rate_label@[5].templates@.len() == 3,
            r.heart_rate_label@[0].templates@[0]@ == "\u{2661} {{bpm}}"@,
            r.heart_rate_label@[1].templates@[0]@ == "\u{2764}\u{fe0f} {{bpm}}"@,
            r.heart_rate_label@[2].templates@[0]@ == "\u{1f495} {{bpm}} \u{1f495}"@,
            r.heart_rate_label@[3].templates@[0]@
                == "\u{2764}\u{fe0f}\u{1f495} {{bpm}} \u{1f495}\u{2764}\u{fe0f}"@,
            r.heart_rate_label@[4].templates@[0]@
                == "\u{2764}\u{fe0f}\u{2764}\u{fe0f}\u{2764}\u{fe0f} {{bpm}} \u{2764}\u{fe0f}\u{2764}\u{fe0f}\u{2764}\u{fe0f}"@,
            r.heart_rate_label@[4].templates@[1]@
                == "\u{1f495}\u{1f495}\u{1f495} {{bpm}} \u{1f495}\u{1f495}\u{1f495}"@,
            r.heart_rate_label@[5].templates@[0]@
                == "\u{2764}\u{fe0f}\u{2764}\u{fe0f}\u{2764}\u{fe0f}\u{2764}\u{fe0f} {{bpm}} \u{2764}\u{fe0f}\u{2764}\u{fe0f}\u{2764}\u{fe0f}\u{2764}\u{fe0f}"@,
            r.heart_rate_label@[5].templates@[1]@
                == "\u{1f495}\u{1f495}\u{1f495}\u{1f495} {{bpm}} \u{1f495}\u{1f495}\u{1f495}\u{1f495}"@,
            r.heart_rate_label@[5].templates@[2]@ == "LOVE \u{2764}\u{fe0f} {{bpm}} \u{2764}\u{fe0f} LOVE"@,
    {
        let heart_rate_label = vec![
            label("70", vec![String::from_str("\u{2661} {{bpm}}")]),
            label("80", vec![String::from_str("\u{2764}\u{fe0f} {{bpm}}")]),
            label("100", vec![String::from_str("\u{1f495} {{bpm}} \u{1f495}")]),
            label(
                "130",
                vec![String::from_str("\u{2764}\u{fe0f}\u{1f495} {{bpm}} \u{1f495}\u{2764}\u{fe0f}")],
            ),
            label(
                "150",
                vec![
                    String::from_str(
                        "\u{2764}\u{fe0f}\u{2764}\u{fe0f}\u{2764}\u{fe0f} {{bpm}} \u{2764}\u{fe0f}\u{2764}\u{fe0f}\u{2764}\u{fe0f}",
                    ),
                    String::from_str("\u{1f495}\u{1f495}\u{1f495} {{bpm}} \u{1f495}\u{1f495}\u{1f495}"),
                ],
            ),
            label(
                "999",
                vec![
                    String::from_str(
                        "\u{2764}\u{fe0f}\u{2764}\u{fe0f}\u{2764}\u{fe0f}\u{2764}\u{fe0f} {{bpm}} \u{2764}\u{fe0f}\u{2764}\u{fe0f}\u{2764}\u{fe0f}\u{2764}\u{fe0f}",
                    ),
                    String::from_str(
                        "\u{1f495}\u{1f495}\u{1f495}\u{1f495} {{bpm}} \u{1f495}\u{1f495}\u{1f495}\u{1f495}",
                    ),
                    String::from_str("LOVE \u{2764}\u{fe0f} {{bpm}} \u{2764}\u{fe0f} LOVE"),
                ],
            ),
        ];
        Config {
            osc_host: String::from_str("127.0.0.1"),
            osc_port: 9000,
            heart_rate_device_name: None,
            heart_rate_device_address: None,
            apple_watch: false,
            xiaomi_band: false,
            heart_rate_label,
        }
    }
}

impl Config {
    /// The source that this configuration selects for the run.
    pub fn source(&self) -> (r: SourceConfig)
        ensures
            r@ == selected_source(
                self.xiaomi_band,
                self.apple_watch,
                option_view(self.heart_rate_device_name),
                option_view(self.heart_rate_device_address),
            ),
    {
        if self.xiaomi_band {
            SourceConfig::AdvertisementScan
        } else if self.apple_watch {
            SourceConfig::HttpIngest(DEFAULT_INGEST_PORT)
        } else if let Some(name) = &self.heart_rate_device_name {
            SourceConfig::NamedBluetooth(name.clone())
        } else if let Some(address) = &self.heart_rate_device_address {
            SourceConfig::AddressedBluetooth(address.clone())
        } else {
            SourceConfig::HeuristicBluetooth
        }
    }

    /// The display text for `bpm`: the selected row's template, picked at
    /// random among several, with the heart rate filled in. `None` when no
    /// row has a numeric bound or the selected row has no template.
    pub fn get_heart_rate_text(&self, bpm: u32) -> (r: Option<String>)
        ensures
            r is Some <==> heart_rate_text(self.heart_rate_label@, bpm, 0) is Some,
            r matches Some(t) ==> exists|c: int|
                0 <= c && heart_rate_text(self.heart_rate_label@, bpm, c) == Some(t@),
    {
        match select_label(&self.heart_rate_label, bpm) {
            Some(i) => {
                let templates = &self.heart_rate_label[i].templates;
                let n = templates.len();
                if n == 0 {
                    None
                } else {
                    let choice = if n == 1 {
                        0
                    } else {
                        random_index(n)
                    };
                    let text = render_template(templates[choice].as_str(), bpm);
                    proof {
                        vstd::arithmetic::div_mod::lemma_small_mod(choice as nat, n as nat);
                    }
                    assert(heart_rate_text(self.heart_rate_label@, bpm, choice as int) == Some(
                        text@,
                    ));
                    Some(text)
                }
            },
            None => None,
        }
    }
}

} // verus!
