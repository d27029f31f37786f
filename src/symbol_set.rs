use vstd::prelude::*;
use crate::error::{ZBarErrorType, ZBarResult};
use crate::symbol::ZBarSymbolType;

verus! {

/// The text that a byte string spells in UTF-8, or `None` where it is not valid UTF-8.
pub uninterp spec fn utf8_text(b: Seq<u8>) -> Option<Seq<char>>;

/// Relies on `String::from_utf8`: it accepts a byte string exactly when it is valid UTF-8,
/// and the text then depends on the bytes alone.
#[verifier::external_body]
fn decode_utf8(b: Vec<u8>) -> (r: Option<String>)
    ensures
        r is Some <==> utf8_text(b@) is Some,
        r is Some ==> r->Some_0@ == utf8_text(b@)->Some_0,
{
    String::from_utf8(b).ok()
}

/// A payload's text from its decoding: the text where there is one, else `DecodeTextFailed`.
pub fn text_of(decoded: Option<String>) -> (r: ZBarResult<String>)
    ensures
        decoded is Some ==> r is Ok && r->Ok_0@ == decoded->Some_0@,
        decoded is None ==> r is Err && r->Err_0 == ZBarErrorType::DecodeTextFailed,
{
    match decoded {
        Some(t) => Ok(t),
        None => Err(ZBarErrorType::DecodeTextFailed),
    }
}

/// What a decoded symbol holds.
pub struct SymbolView {
    pub symbol_type: ZBarSymbolType,
    pub data: Seq<u8>,
    pub quality: i32,
    pub polygon: Seq<(i32, i32)>,
}

/// One decoded barcode: its family, its payload, a quality score and the points of the
/// boundary where it was found.
pub struct ZBarSymbol {
    symbol_type: ZBarSymbolType,
    data: Vec<u8>,
    quality: i32,
    polygon: Vec<(i32, i32)>,
}

impl View for ZBarSymbol {
    type V = SymbolView;

    closed spec fn view(&self) -> SymbolView {
        SymbolView {
            symbol_type: self.symbol_type,
            data: self.data@,
            quality: self.quality,
            polygon: self.polygon@,
        }
    }
}

impl ZBarSymbol {
    /// A symbol as the engine reported it.
    pub fn new(
        symbol_type: ZBarSymbolType,
        data: Vec<u8>,
        quality: i32,
        polygon: Vec<(i32, i32)>,
    ) -> (r: Self)
        ensures
            r@ == (SymbolView { symbol_type, data: data@, quality, polygon: polygon@ }),
    {
        ZBarSymbol { symbol_type, data, quality, polygon }
    }

    /// The barcode family.
    pub fn symbol_type(&self) -> (r: ZBarSymbolType)
        ensures
            r == self@.symbol_type,
    {
        self.symbol_type
    }

    /// The payload as bytes.
    pub fn data_bytes(&self) -> (r: &[u8])
        ensures
            r@ == self@.data,
    {
        self.data.as_slice()
    }

    /// The payload as text; `DecodeTextFailed` where it is not valid UTF-8.
    pub fn data(&self) -> (r: ZBarResult<String>)
        ensures
            utf8_text(self@.data) is Some ==> r is Ok && r->Ok_0@ == utf8_text(self@.data)->Some_0,
            utf8_text(self@.data) is None ==> r is Err && r->Err_0
                == ZBarErrorType::DecodeTextFailed,
    {
        text_of(decode_utf8(self.data.clone()))
    }

    /// The quality score.
    pub fn quality(&self) -> (r: i32)
        ensures
            r == self@.quality,
    {
        self.quality
    }

    /// The points of the boundary, in order.
    pub fn polygon(&self) -> (r: &Vec<(i32, i32)>)
        ensures
            r@ == self@.polygon,
    {
        &self.polygon
    }
}

/// The symbols of one scan, in the order the engine decoded them.
pub struct ZBarSymbolSet {
    symbols: Vec<ZBarSymbol>,
}

impl View for ZBarSymbolSet {
    type V = Seq<SymbolView>;

    closed spec fn view(&self) -> Seq<SymbolView> {
        self.symbols@.map_values(|s: ZBarSymbol| s@)
    }
}

impl ZBarSymbolSet {
    /// The symbols of a scan, in decode order.
    pub fn new(symbols: Vec<ZBarSymbol>) -> (r: Self)
        ensures
            r@ == symbols@.map_values(|s: ZBarSymbol| s@),
    {
        ZBarSymbolSet { symbols }
    }

    /// How many symbols the scan found.
    pub fn len(&self) -> (r: usize)
        ensures
            r == self@.len(),
    {
        self.symbols.len()
    }

    /// The symbol at position `i` in decode order, if there is one.
    pub fn symbol(&self, i: usize) -> (r: Option<&ZBarSymbol>)
        ensures
            i < self@.len() ==> r is Some && r->Some_0@ == self@[i as int],
            i >= self@.len() ==> r is None,
    {
        if i < self.symbols.len() {
            Some(&self.symbols[i])
        } else {
            None
        }
    }

    /// The first symbol, if the scan found any.
    pub fn first_symbol(&self) -> (r: Option<&ZBarSymbol>)
        ensures
            self@.len() > 0 ==> r is Some && r->Some_0@ == self@[0],
            self@.len() == 0 ==> r is None,
    {
        self.symbol(0)
    }

    /// The symbol that follows position `i`, if there is one.
    pub fn next(&self, i: usize) -> (r: Option<&ZBarSymbol>)
        ensures
            i + 1 < self@.len() ==> r is Some && r->Some_0@ == self@[i + 1],
            i + 1 >= self@.len() ==> r is None,
    {
        if self.symbols.len() > 0 && i < self.symbols.len() - 1 {
            Some(&self.symbols[i + 1])
        } else {
            None
        }
    }
}

} // verus!
