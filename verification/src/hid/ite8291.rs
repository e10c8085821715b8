//! ITE 8291 per-key RGB controller (6×21 matrix, 126 LEDs + 4 zones).
//!
//! Protocol: 8-byte SET_FEATURE reports for control commands, then
//! row-by-row data via output reports for per-key colors.
use crate::error::{IoError, IoErrorKind};
use crate::hid::color_scaling::{has_factors_of_255, scaled_color_spec, ColorScaling};
use crate::hid::hidraw::{bytes_of, HidrawOps};
use crate::hid::{
    owned_names, reports_view, scale_brightness, scale_brightness_spec, send_reports,
    HidReport, KeyboardLed, LedRequest, Rgb,
};
use crate::text::{concat, same_text};
use crate::hid::no_reports;
use crate::request_log::{lemma_empty_plan, ran_until_failure};
use vstd::prelude::*;

verus! {

broadcast use vstd::array::group_array_axioms;

/// Report size for control commands.
pub const CTRL_SIZE: usize = 8;

/// 6 rows of LEDs.
pub const NR_ROWS: usize = 6;

/// 21 columns per row.
pub const LEDS_PER_ROW: usize = 21;

/// Padding bytes before color data in each row packet.
pub const ROW_DATA_PADDING: usize = 2;

/// Total row data length: padding + 21*3 (RGB) = 65 bytes.
pub const ROW_DATA_LENGTH: usize = 65;

/// Maximum hardware brightness (0x32 = 50).
pub const MAX_BRIGHTNESS: u8 = 0x32;

/// User-mode (per-key) animation code.
pub const PARAM_MODE_USER: u8 = 0x33;

/// The animation code of a mode name.
pub open spec fn mode_code_spec(mode: Seq<char>) -> Option<u8> {
    if mode == "static"@ {
        Some(0x33u8)
    } else if mode == "breathing"@ {
        Some(0x02u8)
    } else if mode == "wave"@ {
        Some(0x03u8)
    } else if mode == "reactive"@ {
        Some(0x04u8)
    } else if mode == "rainbow"@ {
        Some(0x05u8)
    } else if mode == "ripple"@ {
        Some(0x06u8)
    } else if mode == "marquee"@ {
        Some(0x09u8)
    } else if mode == "raindrop"@ {
        Some(0x0au8)
    } else if mode == "aurora"@ {
        Some(0x0eu8)
    } else if mode == "spark"@ {
        Some(0x11u8)
    } else {
        None
    }
}

/// The available animation modes, in order.
pub open spec fn modes_spec() -> Seq<Seq<char>> {
    seq![
        "static"@,
        "breathing"@,
        "wave"@,
        "reactive"@,
        "rainbow"@,
        "ripple"@,
        "marquee"@,
        "raindrop"@,
        "aurora"@,
        "spark"@,
    ]
}

/// The animation code of a mode name, if it is one of the modes.
pub fn mode_to_code(mode: &str) -> (r: Option<u8>)
    ensures
        r == mode_code_spec(mode@),
{
    if same_text(mode, "static") {
        Some(PARAM_MODE_USER)
    } else if same_text(mode, "breathing") {
        Some(0x02)
    } else if same_text(mode, "wave") {
        Some(0x03)
    } else if same_text(mode, "reactive") {
        Some(0x04)
    } else if same_text(mode, "rainbow") {
        Some(0x05)
    } else if same_text(mode, "ripple") {
        Some(0x06)
    } else if same_text(mode, "marquee") {
        Some(0x09)
    } else if same_text(mode, "raindrop") {
        Some(0x0a)
    } else if same_text(mode, "aurora") {
        Some(0x0e)
    } else if same_text(mode, "spark") {
        Some(0x11)
    } else {
        None
    }
}

/// The brightness byte sent to the device: at most the hardware maximum.
pub open spec fn capped_brightness(br: u8) -> u8 {
    if br < 0x32 {
        br
    } else {
        0x32u8
    }
}

/// Set per-key user mode: `08 02 33 00 [brightness] 00 00 00`.
pub open spec fn user_params_report(br: u8) -> Seq<u8> {
    seq![0x08u8, 0x02u8, 0x33u8, 0x00u8, capped_brightness(br), 0x00u8, 0x00u8, 0x00u8]
}

/// Announce row data: `16 00 [row] 00 00 00 00 00`.
pub open spec fn row_announce_report(row: int) -> Seq<u8> {
    seq![0x16u8, 0x00u8, row as u8, 0x00u8, 0x00u8, 0x00u8, 0x00u8, 0x00u8]
}

/// Power off: `08 01 00 00 00 00 00 00`.
pub open spec fn off_report() -> Seq<u8> {
    seq![0x08u8, 0x01u8, 0x00u8, 0x00u8, 0x00u8, 0x00u8, 0x00u8, 0x00u8]
}

/// An animation at mid speed: `08 02 [mode] 05 [brightness] 08 00 00`.
pub open spec fn animation_report(code: u8, br: u8) -> Seq<u8> {
    seq![0x08u8, 0x02u8, code, 0x05u8, capped_brightness(br), 0x08u8, 0x00u8, 0x00u8]
}

/// The per-key reports for the first `n` rows: user mode first, then for
/// each row its announcement and its data.
pub open spec fn rows_plan(br: u8, rows: Seq<Seq<u8>>, n: nat) -> Seq<(bool, Seq<u8>)>
    decreases n,
{
    if n == 0 {
        seq![(true, user_params_report(br))]
    } else {
        rows_plan(br, rows, (n - 1) as nat).push((true, row_announce_report(n - 1))).push(
            (false, rows[n - 1]),
        )
    }
}

/// The row data with one LED set to `c`: blue, green and red each in their
/// own block of 21 bytes after the padding.
pub open spec fn row_with_led(row: Seq<u8>, col: int, c: Rgb) -> Seq<u8> {
    row.update(2 + col, c.b).update(23 + col, c.g).update(44 + col, c.r)
}

/// The row data with every LED set to `c`; the padding is kept.
pub open spec fn filled_row(row: Seq<u8>, c: Rgb) -> Seq<u8> {
    Seq::new(
        65,
        |i: int|
            if i < 2 {
                row[i]
            } else if i < 23 {
                c.b
            } else if i < 44 {
                c.g
            } else {
                c.r
            },
    )
}

/// The observable state of the controller.
pub struct Ite8291State {
    /// Hardware brightness, 0..=50.
    pub brightness: u8,
    pub on: bool,
    pub mode: Seq<char>,
    /// Six rows of 65 bytes each.
    pub rows: Seq<Seq<u8>>,
    /// The four zone colors.
    pub zone_colors: Seq<Rgb>,
    pub scaling: ColorScaling,
}

/// The reports that bring the hardware to state `s`.
pub open spec fn flush_plan(s: Ite8291State) -> Seq<(bool, Seq<u8>)> {
    if !s.on {
        seq![(true, off_report())]
    } else {
        let code = match mode_code_spec(s.mode) {
            Some(c) => c,
            None => 0x33u8,
        };
        if code == 0x33 {
            rows_plan(s.brightness, s.rows, 6)
        } else {
            seq![(true, animation_report(code, s.brightness))]
        }
    }
}

/// The state after recording `color` for `zone`: zones 0–3 keep the color,
/// and zone 0 also fills every row with the scaled color.
pub open spec fn color_set_state(s: Ite8291State, zone: u8, color: Rgb) -> Ite8291State {
    let zones = if zone < 4 {
        s.zone_colors.update(zone as int, color)
    } else {
        s.zone_colors
    };
    let rows = if zone == 0 {
        Seq::new(6, |r: int| filled_row(s.rows[r], scaled_color_spec(s.scaling, color)))
    } else {
        s.rows
    };
    Ite8291State { zone_colors: zones, rows, ..s }
}

/// The state just after construction with `scaling`.
pub open spec fn initial_state(scaling: ColorScaling) -> Ite8291State {
    Ite8291State {
        brightness: 0x32,
        on: true,
        mode: "static"@,
        rows: Seq::new(6, |r: int| Seq::new(65, |i: int| 0u8)),
        zone_colors: Seq::new(4, |z: int| Rgb { r: 255, g: 255, b: 255 }),
        scaling,
    }
}

/// ITE 8291 per-key keyboard on a hidraw device.
pub struct Ite8291<H: HidrawOps> {
    hid: H,
    scaling: ColorScaling,
    brightness: u8,
    on: bool,
    current_mode: String,
    /// Row data buffer: [row][col] → RGB packed in blue, green, red order.
    row_data: [[u8; 65]; 6],
    /// Per-zone color (4 zones, used for non-per-key modes).
    zone_colors: [Rgb; 4],
    /// The requests made so far, with their outcomes.
    requests: Ghost<Seq<(LedRequest, bool)>>,
}

/// `row` with every LED set to `c`.
fn fill_row(row: &[u8; 65], c: Rgb) -> (r: [u8; 65])
    ensures
        r@ == filled_row(row@, c),
{
    let mut out: [u8; 65] = *row;
    let mut i: usize = 2;
    while i < ROW_DATA_LENGTH
        invariant
            2 <= i <= 65,
            forall|k: int| 0 <= k < i ==> out@[k] == filled_row(row@, c)[k],
            forall|k: int| i <= k < 65 ==> out@[k] == row@[k],
        decreases 65 - i,
    {
        let v = if i < 23 {
            c.b
        } else if i < 44 {
            c.g
        } else {
            c.r
        };
        out[i] = v;
        i = i + 1;
    }
    assert(out@ =~= filled_row(row@, c));
    out
}

impl<H: HidrawOps> View for Ite8291<H> {
    type V = Ite8291State;

    closed spec fn view(&self) -> Ite8291State {
        Ite8291State {
            brightness: self.brightness,
            on: self.on,
            mode: self.current_mode@,
            rows: self.row_data@.map_values(|v: [u8; 65]| v@),
            zone_colors: self.zone_colors@,
            scaling: self.scaling,
        }
    }
}

impl<H: HidrawOps> Ite8291<H> {
    /// The hidraw device.
    pub closed spec fn device(&self) -> H {
        self.hid
    }

    /// A driver with no color scaling.
    pub fn new(hid: H) -> (r: Self)
        ensures
            r.device() == hid,
            r@ == initial_state(r@.scaling),
            has_factors_of_255(r@.scaling, 255, 255, 255),
    {
        Self::with_scaling(hid, ColorScaling::identity())
    }

    /// A driver that applies `scaling` to every color.
    pub fn with_scaling(hid: H, scaling: ColorScaling) -> (r: Self)
        ensures
            r.device() == hid,
            r@ == initial_state(scaling),
    {
        let white = Rgb::white();
        let zero_row: [u8; 65] = [0u8; 65];
        assert(zero_row@ =~= Seq::new(65, |k: int| 0u8));
        let rows: [[u8; 65]; 6] = [zero_row; 6];
        assert(rows@.map_values(|v: [u8; 65]| v@) =~= Seq::new(6, |r: int| Seq::new(65, |k: int| 0u8)));
        let zones: [Rgb; 4] = [white; 4];
        let d = Ite8291 {
            hid,
            scaling,
            brightness: MAX_BRIGHTNESS,
            on: true,
            current_mode: "static".to_owned(),
            row_data: rows,
            zone_colors: zones,
            requests: Ghost(Seq::empty()),
        };
        assert(d@.rows =~= Seq::new(6, |r: int| Seq::new(65, |k: int| 0u8)));
        assert(d@.zone_colors =~= Seq::new(4, |z: int| Rgb { r: 255, g: 255, b: 255 }));
        d
    }

    /// The hidraw device.
    pub fn hid(&self) -> (r: &H)
        ensures
            *r == self.device(),
    {
        &self.hid
    }

    /// The row data buffer.
    pub fn row_data(&self) -> (r: &[[u8; 65]; 6])
        ensures
            r@.map_values(|v: [u8; 65]| v@) == self@.rows,
    {
        &self.row_data
    }

    /// Brightness 0–255 scaled to the hardware range 0–50.
    pub fn scale_brightness(brightness: u8) -> (r: u8)
        ensures
            r == scale_brightness_spec(brightness, 0x32),
    {
        scale_brightness(brightness, MAX_BRIGHTNESS)
    }

    /// Set a single LED color in the row buffer (with color scaling applied);
    /// a position outside the 6×21 matrix changes nothing.
    pub fn set_row_col(&mut self, row: usize, col: usize, color: Rgb)
        ensures
            final(self).device() == old(self).device(),
            final(self)@ == (if row < 6 && col < 21 {
                Ite8291State {
                    rows: old(self)@.rows.update(
                        row as int,
                        row_with_led(
                            old(self)@.rows[row as int],
                            col as int,
                            scaled_color_spec(old(self)@.scaling, color),
                        ),
                    ),
                    ..old(self)@
                }
            } else {
                old(self)@
            }),
    {
        if row >= NR_ROWS || col >= LEDS_PER_ROW {
            return ;
        }
        let scaled = self.scaling.apply(color);
        let mut data: [u8; 65] = self.row_data[row];
        data[ROW_DATA_PADDING + col] = scaled.b;
        data[ROW_DATA_PADDING + LEDS_PER_ROW + col] = scaled.g;
        data[ROW_DATA_PADDING + 2 * LEDS_PER_ROW + col] = scaled.r;
        let ghost before = self.row_data@;
        self.row_data[row] = data;
        proof {
            assert(self.row_data@.map_values(|v: [u8; 65]| v@) =~= before.map_values(|v: [u8; 65]| v@).update(
                row as int,
                data@,
            ));
        }
    }

    /// Fill the entire matrix with one color.
    pub fn fill_all(&mut self, color: Rgb)
        ensures
            final(self).device() == old(self).device(),
            final(self)@ == (Ite8291State {
                rows: Seq::new(
                    6,
                    |r: int| filled_row(old(self)@.rows[r], scaled_color_spec(old(self)@.scaling, color)),
                ),
                ..old(self)@
            }),
    {
        let scaled = self.scaling.apply(color);
        let ghost old_rows = self@.rows;
        let mut r: usize = 0;
        while r < NR_ROWS
            invariant
                r <= 6,
                old_rows.len() == 6,
                forall|k: int| 0 <= k < 6 ==> #[trigger] old_rows[k] == old(self).row_data@[k]@,
                forall|k: int| 0 <= k < r ==> #[trigger] self.row_data@[k]@ == filled_row(old_rows[k], scaled),
                forall|k: int| r <= k < 6 ==> #[trigger] self.row_data@[k]@ == old_rows[k],
                self.hid == old(self).hid,
                self.scaling == old(self).scaling,
                self.brightness == old(self).brightness,
                self.on == old(self).on,
                self.current_mode@ == old(self).current_mode@,
                self.zone_colors@ == old(self).zone_colors@,
                scaled == scaled_color_spec(old(self)@.scaling, color),
            decreases 6 - r,
        {
            let new_row = fill_row(&self.row_data[r], scaled);
            self.row_data[r] = new_row;
            r = r + 1;
        }
        proof {
            assert(self@.rows =~= Seq::new(6, |k: int| filled_row(old_rows[k], scaled)));
        }
    }

    /// The reports for the per-key data: user mode, then six row
    /// announcements each followed by its row data.
    fn rows_reports(&self) -> (r: Vec<HidReport>)
        ensures
            reports_view(r@) == rows_plan(self@.brightness, self@.rows, 6),
    {
        let br = if self.brightness < MAX_BRIGHTNESS {
            self.brightness
        } else {
            MAX_BRIGHTNESS
        };
        let mut out: Vec<HidReport> = Vec::new();
        out.push(HidReport::Feature(vec![0x08, 0x02, PARAM_MODE_USER, 0x00, br, 0x00, 0x00, 0x00]));
        proof {
            assert(reports_view(out@) =~= rows_plan(self@.brightness, self@.rows, 0));
        }
        let mut i: usize = 0;
        while i < NR_ROWS
            invariant
                i <= 6,
                reports_view(out@) == rows_plan(self@.brightness, self@.rows, i as nat),
            decreases 6 - i,
        {
            let ghost before = out@;
            let row_byte = i as u8;
            out.push(HidReport::Feature(vec![0x16, 0x00, row_byte, 0x00, 0x00, 0x00, 0x00, 0x00]));
            out.push(HidReport::Output(bytes_of(self.row_data[i].as_slice())));
            proof {
                assert(self@.rows[i as int] == self.row_data@[i as int]@);
                assert(reports_view(out@) =~= reports_view(before).push(
                    (true, row_announce_report(i as int)),
                ).push((false, self@.rows[i as int])));
            }
            i = i + 1;
        }
        out
    }

    /// The reports that bring the hardware to the current state.
    pub fn flush_reports(&self) -> (r: Vec<HidReport>)
        ensures
            reports_view(r@) == flush_plan(self@),
    {
        if !self.on {
            let r = vec![HidReport::Feature(vec![0x08, 0x01, 0x00, 0x00, 0x00, 0x00, 0x00, 0x00])];
            assert(reports_view(r@) =~= flush_plan(self@));
            return r;
        }
        let code = match mode_to_code(self.current_mode.as_str()) {
            Some(c) => c,
            None => PARAM_MODE_USER,
        };
        if code == PARAM_MODE_USER {
            self.rows_reports()
        } else {
            let br = if self.brightness < MAX_BRIGHTNESS {
                self.brightness
            } else {
                MAX_BRIGHTNESS
            };
            let r = vec![HidReport::Feature(vec![0x08, 0x02, code, 0x05, br, 0x08, 0x00, 0x00])];
            assert(reports_view(r@) =~= flush_plan(self@));
            r
        }
    }

    /// Send the power-off command.
    fn write_off(&mut self) -> (r: Result<(), IoError>)
        ensures
            H::obeys_hid_model() ==> ran_until_failure(
                old(self).device().sent(),
                final(self).device().sent(),
                seq![(true, off_report())],
                r is Ok,
            ),
            final(self)@ == old(self)@,
    {
        let off = vec![HidReport::Feature(vec![0x08, 0x01, 0x00, 0x00, 0x00, 0x00, 0x00, 0x00])];
        assert(reports_view(off@) =~= seq![(true, off_report())]);
        send_reports(&mut self.hid, &off)
    }
}

impl<H: HidrawOps> KeyboardLed for Ite8291<H> {
    open spec fn obeys_led_model() -> bool {
        true
    }

    closed spec fn requests(&self) -> Seq<(LedRequest, bool)> {
        self.requests@
    }

    open spec fn zones(&self) -> u8 {
        4
    }

    open spec fn modes(&self) -> Seq<Seq<char>> {
        modes_spec()
    }

    /// Scale the brightness to the hardware range and, if on, send the state.
    fn set_brightness(&mut self, brightness: u8) -> (r: Result<(), IoError>)
        ensures
            H::obeys_hid_model() ==> ran_until_failure(
                old(self).device().sent(),
                final(self).device().sent(),
                if old(self)@.on { flush_plan(final(self)@) } else { no_reports() },
                r is Ok,
            ),
            final(self)@ == (Ite8291State {
                brightness: scale_brightness_spec(brightness, 0x32) as u8,
                ..old(self)@
            }),
            !old(self)@.on ==> r is Ok,
    {
        let ghost log = self.requests@;
        let r = {
            self.brightness = Self::scale_brightness(brightness);
            if self.on {
                self.flush()
            } else {
                proof {
                    lemma_empty_plan(self.hid.sent());
                }
                Ok(())
            }
        };
        self.requests = Ghost(log.push((LedRequest::SetBrightness(brightness), r is Ok)));
        r
    }

    /// Record the zone color; zone 0 fills the whole matrix.
    fn set_color(&mut self, zone: u8, color: Rgb) -> (r: Result<(), IoError>)
        ensures
            r is Ok,
            final(self).device() == old(self).device(),
            final(self)@ == color_set_state(old(self)@, zone, color),
    {
        let ghost log = self.requests@;
        let r = {
            if zone < 4 {
                self.zone_colors[zone as usize] = color;
            }
            if zone == 0 {
                self.fill_all(color);
            }
            Ok(())
        };
        self.requests = Ghost(log.push((LedRequest::SetColor(zone, color), r is Ok)));
        r
    }

    /// Switch to a named mode; an unknown name is refused and changes nothing.
    fn set_mode(&mut self, mode: &str) -> (r: Result<(), IoError>)
        ensures
            H::obeys_hid_model() && mode_code_spec(mode@) is Some ==> ran_until_failure(
                old(self).device().sent(),
                final(self).device().sent(),
                if old(self)@.on { flush_plan(final(self)@) } else { no_reports() },
                r is Ok,
            ),
            H::obeys_hid_model() && mode_code_spec(mode@) is None ==> final(self).device().sent() == old(self).device().sent(),
            mode_code_spec(mode@) is None ==> final(self)@ == old(self)@ && (r matches Err(e) && e.kind
                == IoErrorKind::InvalidInput && e.message@ == "unknown mode: "@ + mode@),
            mode_code_spec(mode@) is Some ==> final(self)@ == (Ite8291State {
                mode: mode@,
                ..old(self)@
            }) && (!old(self)@.on ==> r is Ok),
    {
        let ghost log = self.requests@;
        let r = if mode_to_code(mode).is_none() {
            Err(IoError { kind: IoErrorKind::InvalidInput, message: concat("unknown mode: ", mode) })
        } else {
            self.current_mode = mode.to_owned();
            if self.on {
                self.flush()
            } else {
                proof {
                    lemma_empty_plan(self.hid.sent());
                }
                Ok(())
            }
        };
        self.requests = Ghost(log.push((LedRequest::SetMode(mode@), r is Ok)));
        r
    }

    /// Four zones.
    fn zone_count(&self) -> (r: u8)
        ensures
            r == 4,
    {
        4
    }

    /// Turn the LEDs off; the settings are kept.
    fn turn_off(&mut self) -> (r: Result<(), IoError>)
        ensures
            H::obeys_hid_model() ==> ran_until_failure(
                old(self).device().sent(),
                final(self).device().sent(),
                seq![(true, off_report())],
                r is Ok,
            ),
            final(self)@ == (Ite8291State { on: false, ..old(self)@ }),
    {
        let ghost log = self.requests@;
        let r = {
            self.on = false;
            self.write_off()
        };
        self.requests = Ghost(log.push((LedRequest::TurnOff, r is Ok)));
        r
    }

    /// Turn the LEDs on and send the state.
    fn turn_on(&mut self) -> (r: Result<(), IoError>)
        ensures
            H::obeys_hid_model() ==> ran_until_failure(
                old(self).device().sent(),
                final(self).device().sent(),
                flush_plan(final(self)@),
                r is Ok,
            ),
            final(self)@ == (Ite8291State { on: true, ..old(self)@ }),
    {
        let ghost log = self.requests@;
        let r = {
            self.on = true;
            self.flush()
        };
        self.requests = Ghost(log.push((LedRequest::TurnOn, r is Ok)));
        r
    }

    /// Send the reports of `flush_plan` for the current state.
    fn flush(&mut self) -> (r: Result<(), IoError>)
        ensures
            H::obeys_hid_model() ==> ran_until_failure(
                old(self).device().sent(),
                final(self).device().sent(),
                flush_plan(old(self)@),
                r is Ok,
            ),
            final(self)@ == old(self)@,
    {
        let ghost log = self.requests@;
        let r = {
            let reports = self.flush_reports();
            send_reports(&mut self.hid, &reports)
        };
        self.requests = Ghost(log.push((LedRequest::Flush, r is Ok)));
        r
    }

    /// "ite8291".
    fn device_type(&self) -> (r: &str)
        ensures
            r@ == "ite8291"@,
    {
        "ite8291"
    }

    /// The ten animation modes.
    fn available_modes(&self) -> (r: Vec<String>)
        ensures
            r@.map_values(|s: String| s@) == modes_spec(),
    {
        let names = vec![
            "static",
            "breathing",
            "wave",
            "reactive",
            "rainbow",
            "ripple",
            "marquee",
            "raindrop",
            "aurora",
            "spark",
        ];
        let r = owned_names(&names);
        assert(names@.map_values(|s: &str| s@) =~= modes_spec());
        r
    }
}

} // verus!
