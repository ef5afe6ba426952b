use vstd::prelude::*;
use vstd::string::{StrSliceExecFns, StringExecFns};

verus! {

/// Why a pixel-count field failed to parse.
#[derive(Clone, Copy, Debug, PartialEq, Eq, Structural)]
pub enum ParseError {
    /// The digits were missing entirely.
    Empty,
    /// A character that is not a decimal digit stood where digits belong.
    InvalidDigit,
    /// The digits name a number that does not fit in sixteen bits.
    Overflow,
}

/// `c` is a decimal digit.
pub open spec fn is_digit(c: char) -> bool {
    48 <= c as u32 <= 57
}

/// The numeric value of a decimal digit.
pub open spec fn digit_val(c: char) -> int {
    c as u32 - 48
}

/// Every character of `s` is a decimal digit.
pub open spec fn all_digits(s: Seq<char>) -> bool {
    forall|i: int| 0 <= i < s.len() ==> is_digit(#[trigger] s[i])
}

/// The number a digit string denotes, most significant digit first.
pub open spec fn dec_val(s: Seq<char>) -> int
    decreases s.len(),
{
    if s.len() == 0 {
        0
    } else {
        dec_val(s.drop_last()) * 10 + digit_val(s.last())
    }
}

/// What parsing a decimal `u16` from `s` yields: an empty string is
/// `Empty`; after an optional leading plus sign there must be at least one
/// character and all of them digits, else `InvalidDigit`; a value above
/// the sixteen-bit maximum is `Overflow`.
pub open spec fn spec_parse_u16(s: Seq<char>) -> Result<u16, ParseError> {
    if s.len() == 0 {
        Err(ParseError::Empty)
    } else {
        let d = if s[0] == '+' {
            s.drop_first()
        } else {
            s
        };
        if d.len() == 0 || !all_digits(d) {
            Err(ParseError::InvalidDigit)
        } else if dec_val(d) > 65535 {
            Err(ParseError::Overflow)
        } else {
            Ok(dec_val(d) as u16)
        }
    }
}

/// Parse a decimal `u16`, mirroring [`spec_parse_u16`] exactly.
pub fn parse_u16(s: &str) -> (r: Result<u16, ParseError>)
    ensures
        r == spec_parse_u16(s@),
{
    let n = s.unicode_len();
    if n == 0 {
        return Err(ParseError::Empty);
    }
    let first = s.get_char(0);
    let start: usize = if first == '+' {
        1
    } else {
        0
    };
    let ghost d = if s@[0] == '+' {
        s@.drop_first()
    } else {
        s@
    };
    proof {
        assert(d =~= s@.subrange(start as int, n as int));
    }
    if start == n {
        return Err(ParseError::InvalidDigit);
    }
    let mut i: usize = start;
    let mut acc: u32 = 0;
    let mut over: bool = false;
    while i < n
        invariant
            n == s@.len(),
            n > 0,
            0 <= start <= i <= n,
            d == (if s@[0] == '+' {
                s@.drop_first()
            } else {
                s@
            }),
            d == s@.subrange(start as int, n as int),
            forall|j: int| start <= j < i ==> is_digit(#[trigger] s@[j]),
            !over ==> acc as int == dec_val(s@.subrange(start as int, i as int)) && acc <= 65535,
            over ==> dec_val(s@.subrange(start as int, i as int)) > 65535,
        decreases n - i,
    {
        let c = s.get_char(i);
        let v = c as u32;
        if v < 48 || v > 57 {
            proof {
                assert(d[i - start] == s@[i as int]);
                assert(!all_digits(d));
            }
            return Err(ParseError::InvalidDigit);
        }
        proof {
            assert(s@.subrange(start as int, i as int + 1).drop_last() =~= s@.subrange(
                start as int,
                i as int,
            ));
            assert(s@.subrange(start as int, i as int + 1).last() == s@[i as int]);
        }
        let dv = v - 48;
        if !over {
            let next = acc * 10 + dv;
            if next > 65535 {
                over = true;
            } else {
                acc = next;
            }
        }
        i = i + 1;
    }
    proof {
        assert(s@.subrange(start as int, n as int) == d);
        assert forall|k: int| 0 <= k < d.len() implies is_digit(#[trigger] d[k]) by {
            assert(d[k] == s@[start + k]);
        }
    }
    if over {
        Err(ParseError::Overflow)
    } else {
        Ok(acc as u16)
    }
}

/// What a CSS pixel count like `"800px"` parses to: the string with its
/// two-character unit stripped, read as a decimal `u16`.
pub open spec fn spec_px_to_u16(s: Seq<char>) -> Result<u16, ParseError> {
    spec_parse_u16(s.subrange(0, s.len() - 2))
}

/// Strip the two-character unit suffix and parse the remaining decimal
/// number.
pub fn px_to_u16(px: &str) -> (r: Result<u16, ParseError>)
    requires
        px@.len() >= 2,
    ensures
        r == spec_px_to_u16(px@),
{
    let ln = px.unicode_len();
    let nb = px.substring_char(0, ln - 2);
    parse_u16(nb)
}

/// The position of the first `sep` in `s` at or after `i`, or `-1`.
pub open spec fn first_sep_from(s: Seq<char>, sep: char, i: int) -> int
    decreases s.len() - i,
{
    if i < 0 || i >= s.len() {
        -1
    } else if s[i] == sep {
        i
    } else {
        first_sep_from(s, sep, i + 1)
    }
}

/// `s` split on `sep`: the fields between separators, in order. A string
/// without a separator is one field; separators at the edges or next to
/// each other produce empty fields.
pub open spec fn spec_split(s: Seq<char>, sep: char) -> Seq<Seq<char>>
    decreases s.len(),
{
    let i = first_sep_from(s, sep, 0);
    if 0 <= i < s.len() {
        seq![s.subrange(0, i)] + spec_split(s.subrange(i + 1, s.len() as int), sep)
    } else {
        seq![s]
    }
}

/// Split `s` on `sep`, mirroring [`spec_split`] exactly.
pub fn split_on(s: &str, sep: char) -> (r: Vec<String>)
    ensures
        r@.map_values(|t: String| t@) == spec_split(s@, sep),
    decreases s@.len(),
{
    let n = s.unicode_len();
    let mut i: usize = 0;
    while i < n && s.get_char(i) != sep
        invariant
            0 <= i <= n,
            n == s@.len(),
            first_sep_from(s@, sep, 0) == first_sep_from(s@, sep, i as int),
        decreases n - i,
    {
        i = i + 1;
    }
    if i < n {
        proof {
            assert(first_sep_from(s@, sep, 0) == i as int);
        }
        let head = s.substring_char(0, i).to_owned();
        let tail = s.substring_char(i + 1, n);
        let ghost head_g: String = head;
        let mut rest = split_on(tail, sep);
        let mut r: Vec<String> = Vec::new();
        r.push(head);
        let ghost rest_g = rest@;
        r.append(&mut rest);
        proof {
            assert(r@ =~= seq![head_g] + rest_g);
            assert(r@.map_values(|t: String| t@) =~= seq![head_g@] + rest_g.map_values(
                |t: String| t@,
            ));
            assert(r@.map_values(|t: String| t@) =~= spec_split(s@, sep));
        }
        r
    } else {
        proof {
            assert(first_sep_from(s@, sep, i as int) == -1);
        }
        let mut r: Vec<String> = Vec::new();
        r.push(s.to_owned());
        proof {
            assert(r@.map_values(|t: String| t@) =~= seq![s@]);
        }
        r
    }
}

/// What a CSS `background` shorthand yields: its second and third
/// space-separated fields, each with its first character (the dash of a
/// negative offset) dropped, parsed as pixel counts — the sprite's x and y
/// position. The first failure wins, x before y.
pub open spec fn spec_background_to_pos(s: Seq<char>) -> Result<(u16, u16), ParseError> {
    let items = spec_split(s, ' ');
    match spec_px_to_u16(items[1].drop_first()) {
        Err(e) => Err(e),
        Ok(x) => match spec_px_to_u16(items[2].drop_first()) {
            Err(e) => Err(e),
            Ok(y) => Ok((x, y)),
        },
    }
}

/// Extract a sprite's position from a CSS `background` shorthand.
pub fn background_to_pos(background: &str) -> (r: Result<(u16, u16), ParseError>)
    requires
        spec_split(background@, ' ').len() >= 3,
        spec_split(background@, ' ')[1].len() >= 3,
        spec_split(background@, ' ')[2].len() >= 3,
    ensures
        r == spec_background_to_pos(background@),
{
    let items = split_on(background, ' ');
    proof {
        assert(items@.len() == spec_split(background@, ' ').len());
        assert(items@[1]@ == spec_split(background@, ' ')[1]);
        assert(items@[2]@ == spec_split(background@, ' ')[2]);
    }
    let item1 = items[1].as_str();
    let sub1 = item1.substring_char(1, item1.unicode_len());
    proof {
        assert(sub1@ =~= spec_split(background@, ' ')[1].drop_first());
    }
    let x = match px_to_u16(sub1) {
        Ok(v) => v,
        Err(e) => {
            return Err(e);
        },
    };
    let item2 = items[2].as_str();
    let sub2 = item2.substring_char(1, item2.unicode_len());
    proof {
        assert(sub2@ =~= spec_split(background@, ' ')[2].drop_first());
    }
    let y = match px_to_u16(sub2) {
        Ok(v) => v,
        Err(e) => {
            return Err(e);
        },
    };
    Ok((x, y))
}

/// One sprite of a sheet: its size and its position on the texture.
#[derive(Clone, Copy, Debug, PartialEq, Eq, Structural)]
pub struct Sprite {
    pub width: u16,
    pub height: u16,
    pub x: u16,
    pub y: u16,
}

/// A sprite sheet: the sprites and the texture extent that encloses them.
pub struct SpriteSheet {
    pub texture_width: u16,
    pub texture_height: u16,
    pub sprites: Vec<Sprite>,
}

/// The rightmost extent any sprite reaches: the maximum of x plus width,
/// or zero for no sprites.
pub open spec fn width_extent(s: Seq<Sprite>) -> int
    decreases s.len(),
{
    if s.len() == 0 {
        0
    } else {
        let rest = width_extent(s.drop_last());
        let v = s.last().x + s.last().width;
        if v > rest {
            v
        } else {
            rest
        }
    }
}

/// The bottommost extent any sprite reaches: the maximum of y plus height,
/// or zero for no sprites.
pub open spec fn height_extent(s: Seq<Sprite>) -> int
    decreases s.len(),
{
    if s.len() == 0 {
        0
    } else {
        let rest = height_extent(s.drop_last());
        let v = s.last().y + s.last().height;
        if v > rest {
            v
        } else {
            rest
        }
    }
}

/// What one line of sprite descriptions converts to: a sprite per entry,
/// and a texture extent that is exactly the maximum reach of the sprites.
pub fn build_sprite_sheet(sprites: Vec<Sprite>) -> (sheet: SpriteSheet)
    requires
        forall|i: int|
            0 <= i < sprites@.len() ==> (#[trigger] sprites@[i]).x + sprites@[i].width <= u16::MAX
                && sprites@[i].y + sprites@[i].height <= u16::MAX,
    ensures
        sheet.sprites@ == sprites@,
        sheet.texture_width as int == width_extent(sprites@),
        sheet.texture_height as int == height_extent(sprites@),
{
    let ghost all = sprites@;
    let mut texture_width: u16 = 0;
    let mut texture_height: u16 = 0;
    let mut i: usize = 0;
    while i < sprites.len()
        invariant
            0 <= i <= all.len(),
            all == sprites@,
            forall|k: int|
                0 <= k < all.len() ==> (#[trigger] all[k]).x + all[k].width <= u16::MAX
                    && all[k].y + all[k].height <= u16::MAX,
            texture_width as int == width_extent(all.subrange(0, i as int)),
            texture_height as int == height_extent(all.subrange(0, i as int)),
        decreases all.len() - i,
    {
        proof {
            assert(all.subrange(0, i as int + 1).drop_last() =~= all.subrange(0, i as int));
            assert(all.subrange(0, i as int + 1).last() == all[i as int]);
        }
        let s = sprites[i];
        let w = s.x + s.width;
        if w > texture_width {
            texture_width = w;
        }
        let h = s.y + s.height;
        if h > texture_height {
            texture_height = h;
        }
        i = i + 1;
    }
    proof {
        assert(all.subrange(0, all.len() as int) =~= all);
    }
    SpriteSheet { texture_width, texture_height, sprites }
}

/// What one CSS sprite entry converts to: position from the background
/// shorthand, then width, then height, the first failure winning.
pub open spec fn spec_css_to_sprite(
    width: Seq<char>,
    height: Seq<char>,
    background: Seq<char>,
) -> Result<Sprite, ParseError> {
    match spec_background_to_pos(background) {
        Err(e) => Err(e),
        Ok(pos) => match spec_px_to_u16(width) {
            Err(e) => Err(e),
            Ok(w) => match spec_px_to_u16(height) {
                Err(e) => Err(e),
                Ok(h) => Ok(Sprite { width: w, height: h, x: pos.0, y: pos.1 }),
            },
        },
    }
}

/// Convert one CSS sprite entry — width, height and background position —
/// into a sprite.
pub fn css_to_sprite(width: &str, height: &str, background: &str) -> (r: Result<
    Sprite,
    ParseError,
>)
    requires
        width@.len() >= 2,
        height@.len() >= 2,
        spec_split(background@, ' ').len() >= 3,
        spec_split(background@, ' ')[1].len() >= 3,
        spec_split(background@, ' ')[2].len() >= 3,
    ensures
        r == spec_css_to_sprite(width@, height@, background@),
{
    let pos = match background_to_pos(background) {
        Ok(p) => p,
        Err(e) => {
            return Err(e);
        },
    };
    let w = match px_to_u16(width) {
        Ok(v) => v,
        Err(e) => {
            return Err(e);
        },
    };
    let h = match px_to_u16(height) {
        Ok(v) => v,
        Err(e) => {
            return Err(e);
        },
    };
    Ok(Sprite { width: w, height: h, x: pos.0, y: pos.1 })
}

} // verus!
