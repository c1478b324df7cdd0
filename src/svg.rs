//! QR codes of the ciphertext, as SVG images.
use vstd::prelude::*;

use crate::builder::BuildError;

verus! {

#[verifier::external_type_specification]
#[verifier::external_body]
pub struct ExQrError(qrcode::types::QrError);

/// QR code error correction levels, from the most redundant to the least.
#[derive(Clone, Copy, Debug, PartialEq, Eq, Structural)]
pub enum CorrectionLevel {
    /// Recovers from about 30% damage.
    High,
    /// Recovers from about 25% damage.
    Quartile,
    /// Recovers from about 15% damage.
    Medium,
    /// Recovers from about 7% damage.
    Low,
}

/// How redundant a level is: the more redundant, the less data fits.
pub open spec fn redundancy(level: CorrectionLevel) -> nat {
    match level {
        CorrectionLevel::High => 3,
        CorrectionLevel::Quartile => 2,
        CorrectionLevel::Medium => 1,
        CorrectionLevel::Low => 0,
    }
}

/// How every SVG image of a QR code begins.
pub const SVG_PROLOGUE: &'static str = "<?xml version=\"1.0\" standalone=\"yes\"?>";

/// How every SVG image of a QR code ends.
pub const SVG_EPILOGUE: &'static str = "</svg>";

/// The white background that every SVG image of a QR code paints first.
pub const SVG_LIGHT_BACKGROUND: &'static str = "fill=\"#ffffff\"/>";

/// How the path of the dark modules begins in every SVG image of a QR code.
pub const SVG_DARK_MODULES: &'static str = "<path fill=\"#000000\" d=\"";

/// Whether `part` occurs somewhere in `s`.
pub open spec fn holds_text(s: Seq<char>, part: Seq<char>) -> bool {
    exists|i: int| 0 <= i && i + part.len() <= s.len() && #[trigger] s.subrange(i, i + part.len()) == part
}

/// Whether `text` fits in a QR code at `level`.
pub uninterp spec fn qr_fits(text: Seq<char>, level: CorrectionLevel) -> bool;

/// The SVG image of the QR code of `text` at `level`: at least 256 by 256
/// pixels, dark modules black on white, without a quiet zone.
pub uninterp spec fn qr_svg(text: Seq<char>, level: CorrectionLevel) -> Seq<char>;

/// The most redundant level at which `text` fits, or the lowest level when it
/// fits at none.
pub open spec fn best_level(text: Seq<char>) -> CorrectionLevel {
    if qr_fits(text, CorrectionLevel::High) {
        CorrectionLevel::High
    } else if qr_fits(text, CorrectionLevel::Quartile) {
        CorrectionLevel::Quartile
    } else if qr_fits(text, CorrectionLevel::Medium) {
        CorrectionLevel::Medium
    } else {
        CorrectionLevel::Low
    }
}

/// Relies on `qrcode::QrCode::with_error_correction_level` and on the SVG
/// renderer of `qrcode`. The text's bytes are encoded at the given level;
/// whether they fit depends on the bytes and the level alone, and data that
/// fits at a level fits at every less redundant one (the capacity table of
/// each version falls from level L to level H). The image is rendered at
/// least 256 pixels a side, black on white, without a quiet zone, and
/// depends on the code alone.
#[verifier::external_body]
fn encode_svg_at_level(text: &str, level: CorrectionLevel) -> (r: Result<
    String,
    qrcode::types::QrError,
>)
    ensures
        r is Ok <==> qr_fits(text@, level),
        r is Ok ==> forall|l: CorrectionLevel|
            redundancy(l) <= redundancy(level) ==> #[trigger] qr_fits(text@, l),
        r is Ok ==> r->Ok_0@ == qr_svg(text@, level),
        r is Ok ==> SVG_PROLOGUE@.is_prefix_of(r->Ok_0@) && SVG_EPILOGUE@.is_suffix_of(r->Ok_0@),
        r is Ok ==> holds_text(r->Ok_0@, SVG_LIGHT_BACKGROUND@) && holds_text(
            r->Ok_0@,
            SVG_DARK_MODULES@,
        ),
{
    let ec_level = match level {
        CorrectionLevel::High => qrcode::EcLevel::H,
        CorrectionLevel::Quartile => qrcode::EcLevel::Q,
        CorrectionLevel::Medium => qrcode::EcLevel::M,
        CorrectionLevel::Low => qrcode::EcLevel::L,
    };
    qrcode::QrCode::with_error_correction_level(text, ec_level).map(
        |code| {
            code.render().min_dimensions(256, 256).dark_color(
                qrcode::render::svg::Color("#000000"),
            ).light_color(qrcode::render::svg::Color("#ffffff")).quiet_zone(false).build()
        },
    )
}

/// Generate a QR code svg for the given string. The error correction level of
/// the QR code is optimised (less data → more error correction): the levels
/// are tried from the most redundant down, and the first that fits is used.
/// The text is refused exactly when it does not fit at the lowest level.
pub fn qrcode_svg(text: &str) -> (r: Result<String, BuildError>)
    ensures
        r is Ok <==> qr_fits(text@, CorrectionLevel::Low),
        r is Ok ==> qr_fits(text@, best_level(text@)),
        r is Ok ==> r->Ok_0@ == qr_svg(text@, best_level(text@)),
        r is Ok ==> SVG_PROLOGUE@.is_prefix_of(r->Ok_0@) && SVG_EPILOGUE@.is_suffix_of(r->Ok_0@),
        r is Ok ==> holds_text(r->Ok_0@, SVG_LIGHT_BACKGROUND@) && holds_text(
            r->Ok_0@,
            SVG_DARK_MODULES@,
        ),
        r is Err ==> r == Err::<String, BuildError>(BuildError::CapacityExceeded),
{
    let levels = [
        CorrectionLevel::High,
        CorrectionLevel::Quartile,
        CorrectionLevel::Medium,
        CorrectionLevel::Low,
    ];
    let mut result = encode_svg_at_level(text, levels[0]);
    let mut i: usize = 1;
    while i < 4 && result.is_err()
        invariant
            1 <= i <= 4,
            levels@ == seq![
                CorrectionLevel::High,
                CorrectionLevel::Quartile,
                CorrectionLevel::Medium,
                CorrectionLevel::Low,
            ],
            forall|k: int| 0 <= k < i - 1 ==> !qr_fits(text@, #[trigger] levels@[k]),
            result is Ok <==> qr_fits(text@, levels@[i - 1]),
            result is Ok ==> qr_fits(text@, CorrectionLevel::Low),
            result is Ok ==> result->Ok_0@ == qr_svg(text@, levels@[i - 1]),
            result is Ok ==> SVG_PROLOGUE@.is_prefix_of(result->Ok_0@)
                && SVG_EPILOGUE@.is_suffix_of(result->Ok_0@),
            result is Ok ==> holds_text(result->Ok_0@, SVG_LIGHT_BACKGROUND@) && holds_text(
                result->Ok_0@,
                SVG_DARK_MODULES@,
            ),
        decreases 4 - i,
    {
        result = encode_svg_at_level(text, levels[i]);
        i = i + 1;
    }
    proof {
        if result is Ok {
            assert(forall|k: int| 0 <= k < i - 1 ==> !qr_fits(text@, #[trigger] levels@[k]));
            if i == 2 {
                assert(!qr_fits(text@, levels@[0]));
            } else if i == 3 {
                assert(!qr_fits(text@, levels@[0]));
                assert(!qr_fits(text@, levels@[1]));
            } else if i == 4 {
                assert(!qr_fits(text@, levels@[0]));
                assert(!qr_fits(text@, levels@[1]));
                assert(!qr_fits(text@, levels@[2]));
            }
            assert(best_level(text@) == levels@[i - 1]);
        } else {
            assert(i == 4);
            assert(!qr_fits(text@, levels@[3]));
        }
    }
    match result {
        Ok(image) => Ok(image),
        Err(_) => Err(BuildError::CapacityExceeded),
    }
}

} // verus!
