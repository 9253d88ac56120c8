//! Shared vocabulary of the add-on domain: namespaced identifiers, semantic
//! versions, colors and the small helper traits the builders rely on.

use crate::text::{dec_int, hex_digits, push_char, push_dec_i32, push_hex_u8};
use std::sync::Arc;
use vstd::prelude::*;
use vstd::string::StringExecFns;

verus! {

/// A value that can be turned into owned text: the accept-and-convert
/// parameter convention of the builder functions, which take either a
/// borrowed or an owned string.
pub trait IntoText {
    /// The characters the value stands for.
    spec fn chars(&self) -> Seq<char>;

    /// Owned text with exactly those characters.
    fn to_text(&self) -> (r: String)
        ensures
            r@ == self.chars(),
    ;
}

impl IntoText for String {
    open spec fn chars(&self) -> Seq<char> {
        self@
    }

    fn to_text(&self) -> (r: String) {
        self.clone()
    }
}

impl IntoText for &str {
    open spec fn chars(&self) -> Seq<char> {
        self@
    }

    fn to_text(&self) -> (r: String) {
        (*self).to_owned()
    }
}

/// A three-component vector of whole block coordinates.
#[derive(Clone, Copy, Debug)]
pub struct Vec3 {
    pub x: i32,
    pub y: i32,
    pub z: i32,
}

impl Vec3 {
    /// The JSON array rendering of the vector.
    pub open spec fn arr_text(&self) -> Seq<char> {
        seq!['['] + dec_int(self.x as int) + ", "@ + dec_int(self.y as int) + ", "@ + dec_int(
            self.z as int,
        ) + seq![']']
    }

    pub fn new(x: i32, y: i32, z: i32) -> (r: Self)
        ensures
            r == (Vec3 { x, y, z }),
    {
        Self { x, y, z }
    }

    pub fn render_as_arr(&self) -> (r: [i32; 3])
        ensures
            r@ == seq![self.x, self.y, self.z],
    {
        let r = [self.x, self.y, self.z];
        assert(r@ =~= seq![self.x, self.y, self.z]);
        r
    }
}

/// Appends the JSON array rendering of a vector.
pub fn push_vec3(s: &mut String, v: &Vec3)
    ensures
        final(s)@ == old(s)@ + v.arr_text(),
{
    let mut out = String::new();
    push_char(&mut out, '[');
    push_dec_i32(&mut out, v.x);
    out.append(", ");
    push_dec_i32(&mut out, v.y);
    out.append(", ");
    push_dec_i32(&mut out, v.z);
    push_char(&mut out, ']');
    assert(out@ =~= v.arr_text());
    s.append(out.as_str());
}

/// A namespaced identifier, rendered as `namespace:value`.
#[derive(Clone, Debug)]
pub struct Identifier {
    pub namespace: String,
    pub value: String,
}

impl Identifier {
    /// Copies the identifier.
    pub fn duplicate(&self) -> (r: Self)
        ensures
            r == *self,
    {
        Identifier { namespace: self.namespace.clone(), value: self.value.clone() }
    }

    /// The rendered form of the identifier.
    pub open spec fn text(&self) -> Seq<char> {
        self.namespace@ + seq![':'] + self.value@
    }

    pub fn render(&self) -> (r: String)
        ensures
            r@ == self.text(),
    {
        proof {
            reveal_strlit(":");
        }
        let mut s = self.namespace.clone();
        s.append(":");
        s.append(self.value.as_str());
        assert(s@ =~= self.text());
        s
    }

    pub fn new<A: IntoText, B: IntoText>(namespace: A, value: B) -> (r: Self)
        ensures
            r.namespace@ == namespace.chars(),
            r.value@ == value.chars(),
    {
        Self { namespace: namespace.to_text(), value: value.to_text() }
    }
}

impl Default for Identifier {
    fn default() -> (r: Self)
        ensures
            r.namespace@ == Seq::<char>::empty(),
            r.value@ == Seq::<char>::empty(),
    {
        Identifier { namespace: String::new(), value: String::new() }
    }
}

/// An ordered pair of values.
#[derive(Clone, Debug)]
pub struct Pair<T: Clone, K: Clone> {
    pub first: T,
    pub second: K,
}

impl<T: Clone, K: Clone> Pair<T, K> {
    pub fn new(first: T, second: K) -> (r: Self)
        ensures
            r.first == first,
            r.second == second,
    {
        Self { first, second }
    }
}

/// A value that can wrap itself for shared ownership.
pub trait Buildable: Clone + Sized {
    fn build(&self) -> Arc<Self> {
        Arc::new(self.clone())
    }
}

/// A value that can be written out to a path by the surrounding tooling.
pub trait Generatable {
    fn generate(&self, path: &str);
}

/// A semantic version, optionally marked as a beta release.
#[derive(Clone, Copy, Debug)]
pub struct SemVer {
    pub major: i32,
    pub minor: i32,
    pub patch: i32,
    pub beta: bool,
}

impl SemVer {
    /// The dotted rendering, with a `-beta` suffix for beta versions.
    pub open spec fn text(&self) -> Seq<char> {
        dec_int(self.major as int) + seq!['.'] + dec_int(self.minor as int) + seq!['.']
            + dec_int(self.patch as int) + if self.beta {
            "-beta"@
        } else {
            Seq::<char>::empty()
        }
    }

    /// The comma-separated rendering of the three numbers.
    pub open spec fn commas_text(&self) -> Seq<char> {
        dec_int(self.major as int) + seq![',', ' '] + dec_int(self.minor as int) + seq![',', ' ']
            + dec_int(self.patch as int)
    }

    pub fn new(major: i32, minor: i32, patch: i32) -> (r: Self)
        ensures
            r == (SemVer { major, minor, patch, beta: false }),
    {
        Self { major, minor, patch, beta: false }
    }

    pub fn new_beta(major: i32, minor: i32, patch: i32) -> (r: Self)
        ensures
            r == (SemVer { major, minor, patch, beta: true }),
    {
        Self { major, minor, patch, beta: true }
    }

    pub fn render(&self) -> (r: String)
        ensures
            r@ == self.text(),
    {
        proof {
            reveal_strlit(".");
        }
        let mut s = String::new();
        push_dec_i32(&mut s, self.major);
        s.append(".");
        push_dec_i32(&mut s, self.minor);
        s.append(".");
        push_dec_i32(&mut s, self.patch);
        if self.beta {
            s.append("-beta");
        }
        assert(s@ =~= self.text());
        s
    }

    pub fn render_commas(&self) -> (r: String)
        ensures
            r@ == self.commas_text(),
    {
        proof {
            reveal_strlit(", ");
        }
        let mut s = String::new();
        push_dec_i32(&mut s, self.major);
        s.append(", ");
        push_dec_i32(&mut s, self.minor);
        s.append(", ");
        push_dec_i32(&mut s, self.patch);
        assert(s@ =~= self.commas_text());
        s
    }

    /// The format version the generated documents are written against.
    pub fn current() -> (r: Self)
        ensures
            r == (SemVer { major: 1, minor: 21, patch: 50, beta: false }),
    {
        Self { major: 1, minor: 21, patch: 50, beta: false }
    }
}

impl Default for SemVer {
    fn default() -> (r: Self)
        ensures
            r == (SemVer { major: 1, minor: 21, patch: 50, beta: false }),
    {
        SemVer::current()
    }
}

/// An inclusive range of values.
#[derive(Clone, Debug)]
pub struct RangeDescriptor<T: Clone> {
    pub min: T,
    pub max: T,
}

impl<T: Clone> RangeDescriptor<T> {
    pub fn new(min: T, max: T) -> (r: Self)
        ensures
            r.min == min,
            r.max == max,
    {
        Self { min, max }
    }
}

/// A Molang expression, carried as its source text.
#[derive(Clone, Debug)]
pub struct MolangStatement(pub String);

impl MolangStatement {
    pub fn new<S: IntoText>(src: S) -> (r: Self)
        ensures
            r.0@ == src.chars(),
    {
        MolangStatement(src.to_text())
    }
}

/// A named text color of the chat and interface palette.
#[derive(Clone, Debug)]
pub enum ColorCode {
    Black,
    DarkBlue,
    DarkGreen,
    DarkAqua,
    DarkRed,
    DarkPurple,
    Gold,
    Gray,
    DarkGray,
    Blue,
    Green,
    Aqua,
    Red,
    LightPurple,
    Yellow,
    White,
    MinecoinGold,
    MaterialQuartz,
    MaterialIron,
    MaterialNetherite,
    MaterialRedstone,
    MaterialCopper,
    MaterialGold,
    MaterialEmerald,
    MaterialDiamond,
    MaterialLapis,
    MaterialAmethyst,
    MaterialResin,
}

impl ColorCode {
    /// The in-string escape form of the color code.
    pub open spec fn code_text(&self) -> Seq<char> {
        match self {
            ColorCode::Black => "\u{a7}0"@,
            ColorCode::DarkBlue => "\u{a7}1"@,
            ColorCode::DarkGreen => "\u{a7}2"@,
            ColorCode::DarkAqua => "\u{a7}3"@,
            ColorCode::DarkRed => "\u{a7}4"@,
            ColorCode::DarkPurple => "\u{a7}5"@,
            ColorCode::Gold => "\u{a7}6"@,
            ColorCode::Gray => "\u{a7}7"@,
            ColorCode::DarkGray => "\u{a7}8"@,
            ColorCode::Blue => "\u{a7}9"@,
            ColorCode::Green => "\u{a7}a"@,
            ColorCode::Aqua => "\u{a7}b"@,
            ColorCode::Red => "\u{a7}c"@,
            ColorCode::LightPurple => "\u{a7}d"@,
            ColorCode::Yellow => "\u{a7}e"@,
            ColorCode::White => "\u{a7}f"@,
            ColorCode::MinecoinGold => "\u{a7}g"@,
            ColorCode::MaterialQuartz => "\u{a7}h"@,
            ColorCode::MaterialIron => "\u{a7}i"@,
            ColorCode::MaterialNetherite => "\u{a7}j"@,
            ColorCode::MaterialRedstone => "\u{a7}m"@,
            ColorCode::MaterialCopper => "\u{a7}n"@,
            ColorCode::MaterialGold => "\u{a7}p"@,
            ColorCode::MaterialEmerald => "\u{a7}q"@,
            ColorCode::MaterialDiamond => "\u{a7}s"@,
            ColorCode::MaterialLapis => "\u{a7}t"@,
            ColorCode::MaterialAmethyst => "\u{a7}u"@,
            ColorCode::MaterialResin => "\u{a7}v"@,
        }
    }

    /// The color code for use in strings.
    pub fn str_code(&self) -> (r: &str)
        ensures
            r@ == self.code_text(),
    {
        match self {
            ColorCode::Black => "\u{a7}0",
            ColorCode::DarkBlue => "\u{a7}1",
            ColorCode::DarkGreen => "\u{a7}2",
            ColorCode::DarkAqua => "\u{a7}3",
            ColorCode::DarkRed => "\u{a7}4",
            ColorCode::DarkPurple => "\u{a7}5",
            ColorCode::Gold => "\u{a7}6",
            ColorCode::Gray => "\u{a7}7",
            ColorCode::DarkGray => "\u{a7}8",
            ColorCode::Blue => "\u{a7}9",
            ColorCode::Green => "\u{a7}a",
            ColorCode::Aqua => "\u{a7}b",
            ColorCode::Red => "\u{a7}c",
            ColorCode::LightPurple => "\u{a7}d",
            ColorCode::Yellow => "\u{a7}e",
            ColorCode::White => "\u{a7}f",
            ColorCode::MinecoinGold => "\u{a7}g",
            ColorCode::MaterialQuartz => "\u{a7}h",
            ColorCode::MaterialIron => "\u{a7}i",
            ColorCode::MaterialNetherite => "\u{a7}j",
            ColorCode::MaterialRedstone => "\u{a7}m",
            ColorCode::MaterialCopper => "\u{a7}n",
            ColorCode::MaterialGold => "\u{a7}p",
            ColorCode::MaterialEmerald => "\u{a7}q",
            ColorCode::MaterialDiamond => "\u{a7}s",
            ColorCode::MaterialLapis => "\u{a7}t",
            ColorCode::MaterialAmethyst => "\u{a7}u",
            ColorCode::MaterialResin => "\u{a7}v",
        }
    }
}

impl Default for ColorCode {
    fn default() -> (r: Self)
        ensures
            r is White,
    {
        ColorCode::White
    }
}

/// How a color prefers to appear in serialized output.
#[derive(Clone, Copy, Debug)]
pub enum ColorSerializationWay {
    Hex,
    Arr,
}

/// A 24-bit color.
#[derive(Clone, Copy, Debug)]
pub struct RGBColor {
    pub red: u8,
    pub green: u8,
    pub blue: u8,
    pub preferred_serialization_way: ColorSerializationWay,
}

impl RGBColor {
    /// The `#RGB` rendering in upper-case hexadecimal, each channel written
    /// without leading zeroes.
    pub open spec fn hex_text(&self) -> Seq<char> {
        seq!['#'] + hex_digits(self.red as nat) + hex_digits(self.green as nat) + hex_digits(
            self.blue as nat,
        )
    }

    pub fn new(red: u8, green: u8, blue: u8) -> (r: Self)
        ensures
            r.red == red,
            r.green == green,
            r.blue == blue,
    {
        Self { red, green, blue, preferred_serialization_way: ColorSerializationWay::Arr }
    }

    pub fn render_as_arr(&self) -> (r: [u8; 3])
        ensures
            r@ == seq![self.red, self.green, self.blue],
    {
        let r = [self.red, self.green, self.blue];
        assert(r@ =~= seq![self.red, self.green, self.blue]);
        r
    }

    pub fn render_as_hex(&self) -> (r: String)
        ensures
            r@ == self.hex_text(),
    {
        proof {
            reveal_strlit("#");
        }
        let mut s = String::new();
        s.append("#");
        push_hex_u8(&mut s, self.red);
        push_hex_u8(&mut s, self.green);
        push_hex_u8(&mut s, self.blue);
        assert(s@ =~= self.hex_text());
        s
    }
}

/// A type that supplies its own fallback instance for object literals that
/// bind only part of its fields.
pub trait ViolaDefault: Sized {
    fn viola_default() -> Self;
}

/// A vector whose elements convert elementwise into a target type.
pub trait VecInto<E> {
    fn vec_into(&self) -> Vec<E>;
}

impl<T: Clone, E: From<T>> VecInto<E> for Vec<T> {
    fn vec_into(&self) -> (r: Vec<E>) {
        let mut out: Vec<E> = Vec::new();
        let mut i: usize = 0;
        while i < self.len()
            decreases self@.len() - i,
        {
            out.push(E::from(self[i].clone()));
            i = i + 1;
        }
        out
    }
}

/// Converts every element of a vector into the target type.
pub fn vec_into<T: Clone, E: From<T> + Clone>(vec: Vec<T>) -> (r: Vec<E>)
    ensures
        r@.len() == vec@.len(),
{
    let mut new_vec: Vec<E> = Vec::new();
    let mut i: usize = 0;
    while i < vec.len()
        invariant
            new_vec@.len() == i,
            i <= vec@.len(),
        decreases vec@.len() - i,
    {
        new_vec.push(E::from(vec[i].clone()));
        i = i + 1;
    }
    new_vec
}

} // verus!
