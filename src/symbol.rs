use vstd::prelude::*;

verus! {

/// A barcode family.
#[allow(non_camel_case_types)]
#[derive(Clone, Copy, Debug, PartialEq, Eq, Structural)]
pub enum ZBarSymbolType {
    /// No symbol; in a configuration call, every symbology.
    ZBAR_NONE,
    /// A symbol whose decoding was not finished.
    ZBAR_PARTIAL,
    /// EAN-2 add-on.
    ZBAR_EAN2,
    /// EAN-5 add-on.
    ZBAR_EAN5,
    /// EAN-8.
    ZBAR_EAN8,
    /// UPC-E.
    ZBAR_UPCE,
    /// ISBN-10, from EAN-13.
    ZBAR_ISBN10,
    /// UPC-A.
    ZBAR_UPCA,
    /// EAN-13.
    ZBAR_EAN13,
    /// ISBN-13, from EAN-13.
    ZBAR_ISBN13,
    /// EAN/UPC composite.
    ZBAR_COMPOSITE,
    /// Interleaved 2 of 5.
    ZBAR_I25,
    /// GS1 DataBar.
    ZBAR_DATABAR,
    /// GS1 DataBar Expanded.
    ZBAR_DATABAR_EXP,
    /// Codabar.
    ZBAR_CODABAR,
    /// Code 39.
    ZBAR_CODE39,
    /// PDF417.
    ZBAR_PDF417,
    /// QR Code.
    ZBAR_QRCODE,
    /// SQ Code.
    ZBAR_SQCODE,
    /// Code 93.
    ZBAR_CODE93,
    /// Code 128.
    ZBAR_CODE128,
}

/// The engine's code for each value.
pub open spec fn symbol_type_code(t: ZBarSymbolType) -> i32 {
    match t {
        ZBarSymbolType::ZBAR_NONE => 0,
        ZBarSymbolType::ZBAR_PARTIAL => 1,
        ZBarSymbolType::ZBAR_EAN2 => 2,
        ZBarSymbolType::ZBAR_EAN5 => 5,
        ZBarSymbolType::ZBAR_EAN8 => 8,
        ZBarSymbolType::ZBAR_UPCE => 9,
        ZBarSymbolType::ZBAR_ISBN10 => 10,
        ZBarSymbolType::ZBAR_UPCA => 12,
        ZBarSymbolType::ZBAR_EAN13 => 13,
        ZBarSymbolType::ZBAR_ISBN13 => 14,
        ZBarSymbolType::ZBAR_COMPOSITE => 15,
        ZBarSymbolType::ZBAR_I25 => 25,
        ZBarSymbolType::ZBAR_DATABAR => 34,
        ZBarSymbolType::ZBAR_DATABAR_EXP => 35,
        ZBarSymbolType::ZBAR_CODABAR => 38,
        ZBarSymbolType::ZBAR_CODE39 => 39,
        ZBarSymbolType::ZBAR_PDF417 => 57,
        ZBarSymbolType::ZBAR_QRCODE => 64,
        ZBarSymbolType::ZBAR_SQCODE => 80,
        ZBarSymbolType::ZBAR_CODE93 => 93,
        ZBarSymbolType::ZBAR_CODE128 => 128,
    }
}

impl ZBarSymbolType {
    /// The engine's code for this value.
    pub fn value(&self) -> (r: i32)
        ensures
            r == symbol_type_code(*self),
    {
        match *self {
            ZBarSymbolType::ZBAR_NONE => 0,
            ZBarSymbolType::ZBAR_PARTIAL => 1,
            ZBarSymbolType::ZBAR_EAN2 => 2,
            ZBarSymbolType::ZBAR_EAN5 => 5,
            ZBarSymbolType::ZBAR_EAN8 => 8,
            ZBarSymbolType::ZBAR_UPCE => 9,
            ZBarSymbolType::ZBAR_ISBN10 => 10,
            ZBarSymbolType::ZBAR_UPCA => 12,
            ZBarSymbolType::ZBAR_EAN13 => 13,
            ZBarSymbolType::ZBAR_ISBN13 => 14,
            ZBarSymbolType::ZBAR_COMPOSITE => 15,
            ZBarSymbolType::ZBAR_I25 => 25,
            ZBarSymbolType::ZBAR_DATABAR => 34,
            ZBarSymbolType::ZBAR_DATABAR_EXP => 35,
            ZBarSymbolType::ZBAR_CODABAR => 38,
            ZBarSymbolType::ZBAR_CODE39 => 39,
            ZBarSymbolType::ZBAR_PDF417 => 57,
            ZBarSymbolType::ZBAR_QRCODE => 64,
            ZBarSymbolType::ZBAR_SQCODE => 80,
            ZBarSymbolType::ZBAR_CODE93 => 93,
            ZBarSymbolType::ZBAR_CODE128 => 128,
        }
    }

    /// The barcode family with the engine's code `code`, if there is one.
    pub fn from_value(code: i32) -> (r: Option<ZBarSymbolType>)
        ensures
            r is Some ==> symbol_type_code(r->Some_0) == code,
            r is None ==> (forall|t: ZBarSymbolType| symbol_type_code(t) != code),
    {
        if code == 0 {
            return Some(ZBarSymbolType::ZBAR_NONE);
        }
        if code == 1 {
            return Some(ZBarSymbolType::ZBAR_PARTIAL);
        }
        if code == 2 {
            return Some(ZBarSymbolType::ZBAR_EAN2);
        }
        if code == 5 {
            return Some(ZBarSymbolType::ZBAR_EAN5);
        }
        if code == 8 {
            return Some(ZBarSymbolType::ZBAR_EAN8);
        }
        if code == 9 {
            return Some(ZBarSymbolType::ZBAR_UPCE);
        }
        if code == 10 {
            return Some(ZBarSymbolType::ZBAR_ISBN10);
        }
        if code == 12 {
            return Some(ZBarSymbolType::ZBAR_UPCA);
        }
        if code == 13 {
            return Some(ZBarSymbolType::ZBAR_EAN13);
        }
        if code == 14 {
            return Some(ZBarSymbolType::ZBAR_ISBN13);
        }
        if code == 15 {
            return Some(ZBarSymbolType::ZBAR_COMPOSITE);
        }
        if code == 25 {
            return Some(ZBarSymbolType::ZBAR_I25);
        }
        if code == 34 {
            return Some(ZBarSymbolType::ZBAR_DATABAR);
        }
        if code == 35 {
            return Some(ZBarSymbolType::ZBAR_DATABAR_EXP);
        }
        if code == 38 {
            return Some(ZBarSymbolType::ZBAR_CODABAR);
        }
        if code == 39 {
            return Some(ZBarSymbolType::ZBAR_CODE39);
        }
        if code == 57 {
            return Some(ZBarSymbolType::ZBAR_PDF417);
        }
        if code == 64 {
            return Some(ZBarSymbolType::ZBAR_QRCODE);
        }
        if code == 80 {
            return Some(ZBarSymbolType::ZBAR_SQCODE);
        }
        if code == 93 {
            return Some(ZBarSymbolType::ZBAR_CODE93);
        }
        if code == 128 {
            return Some(ZBarSymbolType::ZBAR_CODE128);
        }
        proof {
            assert forall|t: ZBarSymbolType| symbol_type_code(t) != code by {
                match t {
                    _ => {},
                }
            }
        }
        None
    }
}

/// A setting of a symbology's decoder.
#[allow(non_camel_case_types)]
#[derive(Clone, Copy, Debug, PartialEq, Eq, Structural)]
pub enum ZBarConfig {
    /// Turn a symbology on (1) or off (0).
    ZBAR_CFG_ENABLE,
    /// Check an optional check digit.
    ZBAR_CFG_ADD_CHECK,
    /// Keep the check digit in the payload.
    ZBAR_CFG_EMIT_CHECK,
    /// Decode full ASCII.
    ZBAR_CFG_ASCII,
    /// Shortest payload accepted.
    ZBAR_CFG_MIN_LEN,
    /// Longest payload accepted.
    ZBAR_CFG_MAX_LEN,
    /// Matches needed before a symbol is reported.
    ZBAR_CFG_UNCERTAINTY,
    /// Record the symbol's location.
    ZBAR_CFG_POSITION,
    /// Scan every n-th column.
    ZBAR_CFG_X_DENSITY,
    /// Scan every n-th row.
    ZBAR_CFG_Y_DENSITY,
}

/// The engine's code for each value.
pub open spec fn config_code(t: ZBarConfig) -> i32 {
    match t {
        ZBarConfig::ZBAR_CFG_ENABLE => 0,
        ZBarConfig::ZBAR_CFG_ADD_CHECK => 1,
        ZBarConfig::ZBAR_CFG_EMIT_CHECK => 2,
        ZBarConfig::ZBAR_CFG_ASCII => 3,
        ZBarConfig::ZBAR_CFG_MIN_LEN => 32,
        ZBarConfig::ZBAR_CFG_MAX_LEN => 33,
        ZBarConfig::ZBAR_CFG_UNCERTAINTY => 64,
        ZBarConfig::ZBAR_CFG_POSITION => 128,
        ZBarConfig::ZBAR_CFG_X_DENSITY => 256,
        ZBarConfig::ZBAR_CFG_Y_DENSITY => 257,
    }

}

impl ZBarConfig {
    /// The engine's code for this value.
    pub fn value(&self) -> (r: i32)
        ensures
            r == config_code(*self),
    {
        match *self {
            ZBarConfig::ZBAR_CFG_ENABLE => 0,
            ZBarConfig::ZBAR_CFG_ADD_CHECK => 1,
            ZBarConfig::ZBAR_CFG_EMIT_CHECK => 2,
            ZBarConfig::ZBAR_CFG_ASCII => 3,
            ZBarConfig::ZBAR_CFG_MIN_LEN => 32,
            ZBarConfig::ZBAR_CFG_MAX_LEN => 33,
            ZBarConfig::ZBAR_CFG_UNCERTAINTY => 64,
            ZBarConfig::ZBAR_CFG_POSITION => 128,
            ZBarConfig::ZBAR_CFG_X_DENSITY => 256,
            ZBarConfig::ZBAR_CFG_Y_DENSITY => 257,
        }
    }
}

} // verus!
