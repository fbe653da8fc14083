//! The static vendor/product capability table.
//!
//! After decoding a `StateVersion` message, callers look the `(vendor,
//! product)` pair up here to learn what the device can do.  The table is
//! pure data, mirrored one-for-one by a spec function so that the lookup's
//! contract pins every entry.

use vstd::prelude::*;

verus! {

/// The range of colour temperatures a device supports.
#[derive(Debug, Clone, PartialEq)]
pub enum TemperatureRange {
    /// The device supports a range of temperatures.
    Variable { min: u16, max: u16 },
    /// The device only supports one temperature.
    Fixed(u16),
    /// The device is not a lighting product (the LIFX switch).
    NoRange,
}

/// What a LIFX product supports.
#[derive(Debug, Clone, PartialEq)]
pub struct ProductInfo {
    pub name: &'static str,
    /// The light changes physical appearance when the hue value changes.
    pub color: bool,
    /// The light can emit infrared light.
    pub infrared: bool,
    /// The light is a one-dimensional strip of zones (the Z and the Beam).
    pub multizone: bool,
    /// The light may be chained to physically separate hardware (the Tile).
    pub chain: bool,
    /// The light can emit HEV light.
    pub hev: bool,
    /// The light is a two-dimensional matrix (the Tile and the Candle).
    pub matrix: bool,
    /// The device has relays controlling physical power (the switch).
    pub relays: bool,
    /// The device has physical buttons (the switch).
    pub buttons: bool,
    /// The temperature range this device supports.
    pub temperature_range: TemperatureRange,
}

/// The capability entry for a vendor and product id, or `None` for a pair
/// this table does not know.
pub open spec fn spec_product_info(vendor: u32, product: u32) -> Option<ProductInfo> {
    if vendor != 1 {
        None
    } else {
        match product {
            1 => Some(
                ProductInfo {
                    name: "LIFX Original 1000",
                    color: true,
                    infrared: false,
                    multizone: false,
                    chain: false,
                    hev: false,
                    matrix: false,
                    relays: false,
                    buttons: false,
                    temperature_range: TemperatureRange::Variable { min: 2500, max: 9000 },
                },
            ),
            3 => Some(
                ProductInfo {
                    name: "LIFX Color 650",
                    color: true,
                    infrared: false,
                    multizone: false,
                    chain: false,
                    hev: false,
                    matrix: false,
                    relays: false,
                    buttons: false,
                    temperature_range: TemperatureRange::Variable { min: 2500, max: 9000 },
                },
            ),
            10 => Some(
                ProductInfo {
                    name: "LIFX White 800 (Low Voltage)",
                    color: false,
                    infrared: false,
                    multizone: false,
                    chain: false,
                    hev: false,
                    matrix: false,
                    relays: false,
                    buttons: false,
                    temperature_range: TemperatureRange::Variable { min: 2700, max: 6500 },
                },
            ),
            11 => Some(
                ProductInfo {
                    name: "LIFX White 800 (High Voltage)",
                    color: false,
                    infrared: false,
                    multizone: false,
                    chain: false,
                    hev: false,
                    matrix: false,
                    relays: false,
                    buttons: false,
                    temperature_range: TemperatureRange::Variable { min: 2700, max: 6500 },
                },
            ),
            15 => Some(
                ProductInfo {
                    name: "LIFX Color 1000",
                    color: true,
                    infrared: false,
                    multizone: false,
                    chain: false,
                    hev: false,
                    matrix: false,
                    relays: false,
                    buttons: false,
                    temperature_range: TemperatureRange::Variable { min: 2500, max: 9000 },
                },
            ),
            18 => Some(
                ProductInfo {
                    name: "LIFX White 900 BR30 (Low Voltage)",
                    color: false,
                    infrared: false,
                    multizone: false,
                    chain: false,
                    hev: false,
                    matrix: false,
                    relays: false,
                    buttons: false,
                    temperature_range: TemperatureRange::Variable { min: 2500, max: 9000 },
                },
            ),
            19 => Some(
                ProductInfo {
                    name: "LIFX White 900 BR30 (High Voltage)",
                    color: false,
                    infrared: false,
                    multizone: false,
                    chain: false,
                    hev: false,
                    matrix: false,
                    relays: false,
                    buttons: false,
                    temperature_range: TemperatureRange::Variable { min: 2500, max: 9000 },
                },
            ),
            20 => Some(
                ProductInfo {
                    name: "LIFX Color 1000 BR30",
                    color: true,
                    infrared: false,
                    multizone: false,
                    chain: false,
                    hev: false,
                    matrix: false,
                    relays: false,
                    buttons: false,
                    temperature_range: TemperatureRange::Variable { min: 2500, max: 9000 },
                },
            ),
            22 => Some(
                ProductInfo {
                    name: "LIFX Color 1000",
                    color: true,
                    infrared: false,
                    multizone: false,
                    chain: false,
                    hev: false,
                    matrix: false,
                    relays: false,
                    buttons: false,
                    temperature_range: TemperatureRange::Variable { min: 2500, max: 9000 },
                },
            ),
            27 => Some(
                ProductInfo {
                    name: "LIFX A19",
                    color: true,
                    infrared: false,
                    multizone: false,
                    chain: false,
                    hev: false,
                    matrix: false,
                    relays: false,
                    buttons: false,
                    temperature_range: TemperatureRange::Variable { min: 2500, max: 9000 },
                },
            ),
            28 => Some(
                ProductInfo {
                    name: "LIFX BR30",
                    color: true,
                    infrared: false,
                    multizone: false,
                    chain: false,
                    hev: false,
                    matrix: false,
                    relays: false,
                    buttons: false,
                    temperature_range: TemperatureRange::Variable { min: 2500, max: 9000 },
                },
            ),
            29 => Some(
                ProductInfo {
                    name: "LIFX A19 Night Vision",
                    color: true,
                    infrared: true,
                    multizone: false,
                    chain: false,
                    hev: false,
                    matrix: false,
                    relays: false,
                    buttons: false,
                    temperature_range: TemperatureRange::Variable { min: 2500, max: 9000 },
                },
            ),
            30 => Some(
                ProductInfo {
                    name: "LIFX BR30 Night Vision",
                    color: true,
                    infrared: true,
                    multizone: false,
                    chain: false,
                    hev: false,
                    matrix: false,
                    relays: false,
                    buttons: false,
                    temperature_range: TemperatureRange::Variable { min: 2500, max: 9000 },
                },
            ),
            31 => Some(
                ProductInfo {
                    name: "LIFX Z",
                    color: true,
                    infrared: false,
                    multizone: true,
                    chain: false,
                    hev: false,
                    matrix: false,
                    relays: false,
                    buttons: false,
                    temperature_range: TemperatureRange::Variable { min: 2500, max: 9000 },
                },
            ),
            32 => Some(
                ProductInfo {
                    name: "LIFX Z",
                    color: true,
                    infrared: false,
                    multizone: true,
                    chain: false,
                    hev: false,
                    matrix: false,
                    relays: false,
                    buttons: false,
                    temperature_range: TemperatureRange::Variable { min: 2500, max: 9000 },
                },
            ),
            36 => Some(
                ProductInfo {
                    name: "LIFX Downlight",
                    color: true,
                    infrared: false,
                    multizone: false,
                    chain: false,
                    hev: false,
                    matrix: false,
                    relays: false,
                    buttons: false,
                    temperature_range: TemperatureRange::Variable { min: 2500, max: 9000 },
                },
            ),
            37 => Some(
                ProductInfo {
                    name: "LIFX Downlight",
                    color: true,
                    infrared: false,
                    multizone: false,
                    chain: false,
                    hev: false,
                    matrix: false,
                    relays: false,
                    buttons: false,
                    temperature_range: TemperatureRange::Variable { min: 2500, max: 9000 },
                },
            ),
            38 => Some(
                ProductInfo {
                    name: "LIFX Beam",
                    color: true,
                    infrared: false,
                    multizone: true,
                    chain: false,
                    hev: false,
                    matrix: false,
                    relays: false,
                    buttons: false,
                    temperature_range: TemperatureRange::Variable { min: 2500, max: 9000 },
                },
            ),
            39 => Some(
                ProductInfo {
                    name: "LIFX Downlight White to Warm",
                    color: false,
                    infrared: false,
                    multizone: false,
                    chain: false,
                    hev: false,
                    matrix: false,
                    relays: false,
                    buttons: false,
                    temperature_range: TemperatureRange::Variable { min: 2500, max: 9000 },
                },
            ),
            40 => Some(
                ProductInfo {
                    name: "LIFX Downlight",
                    color: true,
                    infrared: false,
                    multizone: false,
                    chain: false,
                    hev: false,
                    matrix: false,
                    relays: false,
                    buttons: false,
                    temperature_range: TemperatureRange::Variable { min: 2500, max: 9000 },
                },
            ),
            43 => Some(
                ProductInfo {
                    name: "LIFX A19",
                    color: true,
                    infrared: false,
                    multizone: false,
                    chain: false,
                    hev: false,
                    matrix: false,
                    relays: false,
                    buttons: false,
                    temperature_range: TemperatureRange::Variable { min: 2500, max: 9000 },
                },
            ),
            44 => Some(
                ProductInfo {
                    name: "LIFX BR30",
                    color: true,
                    infrared: false,
                    multizone: false,
                    chain: false,
                    hev: false,
                    matrix: false,
                    relays: false,
                    buttons: false,
                    temperature_range: TemperatureRange::Variable { min: 2500, max: 9000 },
                },
            ),
            45 => Some(
                ProductInfo {
                    name: "LIFX A19 Night Vision",
                    color: true,
                    infrared: true,
                    multizone: false,
                    chain: false,
                    hev: false,
                    matrix: false,
                    relays: false,
                    buttons: false,
                    temperature_range: TemperatureRange::Variable { min: 2500, max: 9000 },
                },
            ),
            46 => Some(
                ProductInfo {
                    name: "LIFX BR30 Night Vision",
                    color: true,
                    infrared: true,
                    multizone: false,
                    chain: false,
                    hev: false,
                    matrix: false,
                    relays: false,
                    buttons: false,
                    temperature_range: TemperatureRange::Variable { min: 2500, max: 9000 },
                },
            ),
            49 => Some(
                ProductInfo {
                    name: "LIFX Mini Color",
                    color: true,
                    infrared: false,
                    multizone: false,
                    chain: false,
                    hev: false,
                    matrix: false,
                    relays: false,
                    buttons: false,
                    temperature_range: TemperatureRange::Variable { min: 1500, max: 9000 },
                },
            ),
            50 => Some(
                ProductInfo {
                    name: "LIFX Mini White to Warm",
                    color: false,
                    infrared: false,
                    multizone: false,
                    chain: false,
                    hev: false,
                    matrix: false,
                    relays: false,
                    buttons: false,
                    temperature_range: TemperatureRange::Variable { min: 1500, max: 6500 },
                },
            ),
            51 => Some(
                ProductInfo {
                    name: "LIFX Mini White",
                    color: false,
                    infrared: false,
                    multizone: false,
                    chain: false,
                    hev: false,
                    matrix: false,
                    relays: false,
                    buttons: false,
                    temperature_range: TemperatureRange::Variable { min: 2700, max: 2700 },
                },
            ),
            52 => Some(
                ProductInfo {
                    name: "LIFX GU10",
                    color: true,
                    infrared: false,
                    multizone: false,
                    chain: false,
                    hev: false,
                    matrix: false,
                    relays: false,
                    buttons: false,
                    temperature_range: TemperatureRange::Variable { min: 1500, max: 9000 },
                },
            ),
            53 => Some(
                ProductInfo {
                    name: "LIFX GU10",
                    color: true,
                    infrared: false,
                    multizone: false,
                    chain: false,
                    hev: false,
                    matrix: false,
                    relays: false,
                    buttons: false,
                    temperature_range: TemperatureRange::Variable { min: 1500, max: 9000 },
                },
            ),
            55 => Some(
                ProductInfo {
                    name: "LIFX Tile",
                    color: true,
                    infrared: false,
                    multizone: false,
                    chain: true,
                    hev: false,
                    matrix: true,
                    relays: false,
                    buttons: false,
                    temperature_range: TemperatureRange::Variable { min: 2500, max: 9000 },
                },
            ),
            57 => Some(
                ProductInfo {
                    name: "LIFX Candle",
                    color: true,
                    infrared: false,
                    multizone: false,
                    chain: false,
                    hev: false,
                    matrix: true,
                    relays: false,
                    buttons: false,
                    temperature_range: TemperatureRange::Variable { min: 1500, max: 9000 },
                },
            ),
            59 => Some(
                ProductInfo {
                    name: "LIFX Mini Color",
                    color: true,
                    infrared: false,
                    multizone: false,
                    chain: false,
                    hev: false,
                    matrix: false,
                    relays: false,
                    buttons: false,
                    temperature_range: TemperatureRange::Variable { min: 1500, max: 9000 },
                },
            ),
            60 => Some(
                ProductInfo {
                    name: "LIFX Mini White to Warm",
                    color: false,
                    infrared: false,
                    multizone: false,
                    chain: false,
                    hev: false,
                    matrix: false,
                    relays: false,
                    buttons: false,
                    temperature_range: TemperatureRange::Variable { min: 1500, max: 6500 },
                },
            ),
            61 => Some(
                ProductInfo {
                    name: "LIFX Mini White",
                    color: false,
                    infrared: false,
                    multizone: false,
                    chain: false,
                    hev: false,
                    matrix: false,
                    relays: false,
                    buttons: false,
                    temperature_range: TemperatureRange::Variable { min: 2700, max: 2700 },
                },
            ),
            62 => Some(
                ProductInfo {
                    name: "LIFX A19",
                    color: true,
                    infrared: false,
                    multizone: false,
                    chain: false,
                    hev: false,
                    matrix: false,
                    relays: false,
                    buttons: false,
                    temperature_range: TemperatureRange::Variable { min: 1500, max: 9000 },
                },
            ),
            63 => Some(
                ProductInfo {
                    name: "LIFX BR30",
                    color: true,
                    infrared: false,
                    multizone: false,
                    chain: false,
                    hev: false,
                    matrix: false,
                    relays: false,
                    buttons: false,
                    temperature_range: TemperatureRange::Variable { min: 1500, max: 9000 },
                },
            ),
            64 => Some(
                ProductInfo {
                    name: "LIFX A19 Night Vision",
                    color: true,
                    infrared: true,
                    multizone: false,
                    chain: false,
                    hev: false,
                    matrix: false,
                    relays: false,
                    buttons: false,
                    temperature_range: TemperatureRange::Variable { min: 1500, max: 9000 },
                },
            ),
            65 => Some(
                ProductInfo {
                    name: "LIFX BR30 Night Vision",
                    color: true,
                    infrared: true,
                    multizone: false,
                    chain: false,
                    hev: false,
                    matrix: false,
                    relays: false,
                    buttons: false,
                    temperature_range: TemperatureRange::Variable { min: 1500, max: 9000 },
                },
            ),
            66 => Some(
                ProductInfo {
                    name: "LIFX Mini White",
                    color: false,
                    infrared: false,
                    multizone: false,
                    chain: false,
                    hev: false,
                    matrix: false,
                    relays: false,
                    buttons: false,
                    temperature_range: TemperatureRange::Variable { min: 2700, max: 2700 },
                },
            ),
            68 => Some(
                ProductInfo {
                    name: "LIFX Candle",
                    color: true,
                    infrared: false,
                    multizone: false,
                    chain: false,
                    hev: false,
                    matrix: true,
                    relays: false,
                    buttons: false,
                    temperature_range: TemperatureRange::Variable { min: 1500, max: 9000 },
                },
            ),
            70 => Some(
                ProductInfo {
                    name: "LIFX Switch",
                    color: false,
                    infrared: false,
                    multizone: false,
                    chain: false,
                    hev: false,
                    matrix: false,
                    relays: true,
                    buttons: true,
                    temperature_range: TemperatureRange::NoRange,
                },
            ),
            71 => Some(
                ProductInfo {
                    name: "LIFX Switch",
                    color: false,
                    infrared: false,
                    multizone: false,
                    chain: false,
                    hev: false,
                    matrix: false,
                    relays: true,
                    buttons: true,
                    temperature_range: TemperatureRange::NoRange,
                },
            ),
            81 => Some(
                ProductInfo {
                    name: "LIFX Candle White to Warm",
                    color: false,
                    infrared: false,
                    multizone: false,
                    chain: false,
                    hev: false,
                    matrix: false,
                    relays: false,
                    buttons: false,
                    temperature_range: TemperatureRange::Variable { min: 2200, max: 6500 },
                },
            ),
            82 => Some(
                ProductInfo {
                    name: "LIFX Filament Clear",
                    color: false,
                    infrared: false,
                    multizone: false,
                    chain: false,
                    hev: false,
                    matrix: false,
                    relays: false,
                    buttons: false,
                    temperature_range: TemperatureRange::Variable { min: 2100, max: 2100 },
                },
            ),
            85 => Some(
                ProductInfo {
                    name: "LIFX Filament Amber",
                    color: false,
                    infrared: false,
                    multizone: false,
                    chain: false,
                    hev: false,
                    matrix: false,
                    relays: false,
                    buttons: false,
                    temperature_range: TemperatureRange::Variable { min: 2000, max: 2000 },
                },
            ),
            87 => Some(
                ProductInfo {
                    name: "LIFX Mini White",
                    color: false,
                    infrared: false,
                    multizone: false,
                    chain: false,
                    hev: false,
                    matrix: false,
                    relays: false,
                    buttons: false,
                    temperature_range: TemperatureRange::Variable { min: 2700, max: 2700 },
                },
            ),
            88 => Some(
                ProductInfo {
                    name: "LIFX Mini White",
                    color: false,
                    infrared: false,
                    multizone: false,
                    chain: false,
                    hev: false,
                    matrix: false,
                    relays: false,
                    buttons: false,
                    temperature_range: TemperatureRange::Variable { min: 2700, max: 2700 },
                },
            ),
            89 => Some(
                ProductInfo {
                    name: "LIFX Switch",
                    color: false,
                    infrared: false,
                    multizone: false,
                    chain: false,
                    hev: false,
                    matrix: false,
                    relays: true,
                    buttons: true,
                    temperature_range: TemperatureRange::NoRange,
                },
            ),
            90 => Some(
                ProductInfo {
                    name: "LIFX Clean",
                    color: true,
                    infrared: false,
                    multizone: false,
                    chain: false,
                    hev: true,
                    matrix: false,
                    relays: false,
                    buttons: false,
                    temperature_range: TemperatureRange::Variable { min: 1500, max: 9000 },
                },
            ),
            91 => Some(
                ProductInfo {
                    name: "LIFX Color",
                    color: true,
                    infrared: false,
                    multizone: false,
                    chain: false,
                    hev: false,
                    matrix: false,
                    relays: false,
                    buttons: false,
                    temperature_range: TemperatureRange::Variable { min: 1500, max: 9000 },
                },
            ),
            92 => Some(
                ProductInfo {
                    name: "LIFX Color",
                    color: true,
                    infrared: false,
                    multizone: false,
                    chain: false,
                    hev: false,
                    matrix: false,
                    relays: false,
                    buttons: false,
                    temperature_range: TemperatureRange::Variable { min: 1500, max: 9000 },
                },
            ),
            93 => Some(
                ProductInfo {
                    name: "LIFX A19 US",
                    color: true,
                    infrared: false,
                    multizone: false,
                    chain: false,
                    hev: false,
                    matrix: false,
                    relays: false,
                    buttons: false,
                    temperature_range: TemperatureRange::Variable { min: 1500, max: 9000 },
                },
            ),
            94 => Some(
                ProductInfo {
                    name: "LIFX BR30",
                    color: true,
                    infrared: false,
                    multizone: false,
                    chain: false,
                    hev: false,
                    matrix: false,
                    relays: false,
                    buttons: false,
                    temperature_range: TemperatureRange::Variable { min: 1500, max: 9000 },
                },
            ),
            96 => Some(
                ProductInfo {
                    name: "LIFX Candle White to Warm",
                    color: false,
                    infrared: false,
                    multizone: false,
                    chain: false,
                    hev: false,
                    matrix: false,
                    relays: false,
                    buttons: false,
                    temperature_range: TemperatureRange::Variable { min: 2200, max: 6500 },
                },
            ),
            97 => Some(
                ProductInfo {
                    name: "LIFX A19",
                    color: true,
                    infrared: false,
                    multizone: false,
                    chain: false,
                    hev: false,
                    matrix: false,
                    relays: false,
                    buttons: false,
                    temperature_range: TemperatureRange::Variable { min: 1500, max: 9000 },
                },
            ),
            98 => Some(
                ProductInfo {
                    name: "LIFX BR30",
                    color: true,
                    infrared: false,
                    multizone: false,
                    chain: false,
                    hev: false,
                    matrix: false,
                    relays: false,
                    buttons: false,
                    temperature_range: TemperatureRange::Variable { min: 1500, max: 9000 },
                },
            ),
            99 => Some(
                ProductInfo {
                    name: "LIFX Clean",
                    color: true,
                    infrared: false,
                    multizone: false,
                    chain: false,
                    hev: true,
                    matrix: false,
                    relays: false,
                    buttons: false,
                    temperature_range: TemperatureRange::Variable { min: 1500, max: 9000 },
                },
            ),
            100 => Some(
                ProductInfo {
                    name: "LIFX Filament Clear",
                    color: false,
                    infrared: false,
                    multizone: false,
                    chain: false,
                    hev: false,
                    matrix: false,
                    relays: false,
                    buttons: false,
                    temperature_range: TemperatureRange::Variable { min: 2100, max: 2100 },
                },
            ),
            101 => Some(
                ProductInfo {
                    name: "LIFX Filament Amber",
                    color: false,
                    infrared: false,
                    multizone: false,
                    chain: false,
                    hev: false,
                    matrix: false,
                    relays: false,
                    buttons: false,
                    temperature_range: TemperatureRange::Variable { min: 2000, max: 2000 },
                },
            ),
            109 => Some(
                ProductInfo {
                    name: "LIFX A19 Night Vision",
                    color: true,
                    infrared: true,
                    multizone: false,
                    chain: false,
                    hev: false,
                    matrix: false,
                    relays: false,
                    buttons: false,
                    temperature_range: TemperatureRange::Variable { min: 1500, max: 9000 },
                },
            ),
            110 => Some(
                ProductInfo {
                    name: "LIFX BR30 Night Vision",
                    color: true,
                    infrared: true,
                    multizone: false,
                    chain: false,
                    hev: false,
                    matrix: false,
                    relays: false,
                    buttons: false,
                    temperature_range: TemperatureRange::Variable { min: 1500, max: 9000 },
                },
            ),
            111 => Some(
                ProductInfo {
                    name: "LIFX A19 Night Vision",
                    color: true,
                    infrared: true,
                    multizone: false,
                    chain: false,
                    hev: false,
                    matrix: false,
                    relays: false,
                    buttons: false,
                    temperature_range: TemperatureRange::Variable { min: 1500, max: 9000 },
                },
            ),
            112 => Some(
                ProductInfo {
                    name: "LIFX BR30 Night Vision Intl",
                    color: true,
                    infrared: true,
                    multizone: false,
                    chain: false,
                    hev: false,
                    matrix: false,
                    relays: false,
                    buttons: false,
                    temperature_range: TemperatureRange::Variable { min: 1500, max: 9000 },
                },
            ),
            113 => Some(
                ProductInfo {
                    name: "LIFX Mini WW US",
                    color: false,
                    infrared: false,
                    multizone: false,
                    chain: false,
                    hev: false,
                    matrix: false,
                    relays: false,
                    buttons: false,
                    temperature_range: TemperatureRange::Variable { min: 1500, max: 9000 },
                },
            ),
            114 => Some(
                ProductInfo {
                    name: "LIFX Mini WW Intl",
                    color: false,
                    infrared: false,
                    multizone: false,
                    chain: false,
                    hev: false,
                    matrix: false,
                    relays: false,
                    buttons: false,
                    temperature_range: TemperatureRange::Variable { min: 1500, max: 9000 },
                },
            ),
            115 => Some(
                ProductInfo {
                    name: "LIFX Switch",
                    color: false,
                    infrared: false,
                    multizone: false,
                    chain: false,
                    hev: false,
                    matrix: false,
                    relays: true,
                    buttons: true,
                    temperature_range: TemperatureRange::NoRange,
                },
            ),
            116 => Some(
                ProductInfo {
                    name: "LIFX Switch",
                    color: false,
                    infrared: false,
                    multizone: false,
                    chain: false,
                    hev: false,
                    matrix: false,
                    relays: true,
                    buttons: true,
                    temperature_range: TemperatureRange::NoRange,
                },
            ),
            117 => Some(
                ProductInfo {
                    name: "LIFX Z",
                    color: true,
                    infrared: false,
                    multizone: true,
                    chain: false,
                    hev: false,
                    matrix: false,
                    relays: false,
                    buttons: false,
                    temperature_range: TemperatureRange::Variable { min: 1500, max: 9000 },
                },
            ),
            118 => Some(
                ProductInfo {
                    name: "LIFX Z",
                    color: true,
                    infrared: false,
                    multizone: true,
                    chain: false,
                    hev: false,
                    matrix: false,
                    relays: false,
                    buttons: false,
                    temperature_range: TemperatureRange::Variable { min: 1500, max: 9000 },
                },
            ),
            119 => Some(
                ProductInfo {
                    name: "LIFX Beam",
                    color: true,
                    infrared: false,
                    multizone: true,
                    chain: false,
                    hev: false,
                    matrix: false,
                    relays: false,
                    buttons: false,
                    temperature_range: TemperatureRange::Variable { min: 1500, max: 9000 },
                },
            ),
            120 => Some(
                ProductInfo {
                    name: "LIFX Beam",
                    color: true,
                    infrared: false,
                    multizone: true,
                    chain: false,
                    hev: false,
                    matrix: false,
                    relays: false,
                    buttons: false,
                    temperature_range: TemperatureRange::Variable { min: 1500, max: 9000 },
                },
            ),
            123 => Some(
                ProductInfo {
                    name: "LIFX Color US",
                    color: true,
                    infrared: false,
                    multizone: false,
                    chain: false,
                    hev: false,
                    matrix: false,
                    relays: false,
                    buttons: false,
                    temperature_range: TemperatureRange::Variable { min: 1500, max: 9000 },
                },
            ),
            124 => Some(
                ProductInfo {
                    name: "LIFX Color Intl",
                    color: true,
                    infrared: false,
                    multizone: false,
                    chain: false,
                    hev: false,
                    matrix: false,
                    relays: false,
                    buttons: false,
                    temperature_range: TemperatureRange::Variable { min: 1500, max: 9000 },
                },
            ),
            125 => Some(
                ProductInfo {
                    name: "LIFX White to Warm US",
                    color: false,
                    infrared: false,
                    multizone: false,
                    chain: false,
                    hev: false,
                    matrix: false,
                    relays: false,
                    buttons: false,
                    temperature_range: TemperatureRange::Variable { min: 1500, max: 9000 },
                },
            ),
            126 => Some(
                ProductInfo {
                    name: "LIFX White to Warm Intl",
                    color: false,
                    infrared: false,
                    multizone: false,
                    chain: false,
                    hev: false,
                    matrix: false,
                    relays: false,
                    buttons: false,
                    temperature_range: TemperatureRange::Variable { min: 1500, max: 9000 },
                },
            ),
            127 => Some(
                ProductInfo {
                    name: "LIFX White US",
                    color: false,
                    infrared: false,
                    multizone: false,
                    chain: false,
                    hev: false,
                    matrix: false,
                    relays: false,
                    buttons: false,
                    temperature_range: TemperatureRange::Variable { min: 2700, max: 2700 },
                },
            ),
            128 => Some(
                ProductInfo {
                    name: "LIFX White Intl",
                    color: false,
                    infrared: false,
                    multizone: false,
                    chain: false,
                    hev: false,
                    matrix: false,
                    relays: false,
                    buttons: false,
                    temperature_range: TemperatureRange::Variable { min: 2700, max: 2700 },
                },
            ),
            129 => Some(
                ProductInfo {
                    name: "LIFX Color US",
                    color: true,
                    infrared: false,
                    multizone: false,
                    chain: false,
                    hev: false,
                    matrix: false,
                    relays: false,
                    buttons: false,
                    temperature_range: TemperatureRange::Variable { min: 1500, max: 9000 },
                },
            ),
            130 => Some(
                ProductInfo {
                    name: "LIFX Color Intl",
                    color: true,
                    infrared: false,
                    multizone: false,
                    chain: false,
                    hev: false,
                    matrix: false,
                    relays: false,
                    buttons: false,
                    temperature_range: TemperatureRange::Variable { min: 1500, max: 9000 },
                },
            ),
            131 => Some(
                ProductInfo {
                    name: "LIFX White To Warm US",
                    color: false,
                    infrared: false,
                    multizone: false,
                    chain: false,
                    hev: false,
                    matrix: false,
                    relays: false,
                    buttons: false,
                    temperature_range: TemperatureRange::Variable { min: 1500, max: 9000 },
                },
            ),
            132 => Some(
                ProductInfo {
                    name: "LIFX White To Warm Intl",
                    color: false,
                    infrared: false,
                    multizone: false,
                    chain: false,
                    hev: false,
                    matrix: false,
                    relays: false,
                    buttons: false,
                    temperature_range: TemperatureRange::Variable { min: 1500, max: 9000 },
                },
            ),
            133 => Some(
                ProductInfo {
                    name: "LIFX White US",
                    color: false,
                    infrared: false,
                    multizone: false,
                    chain: false,
                    hev: false,
                    matrix: false,
                    relays: false,
                    buttons: false,
                    temperature_range: TemperatureRange::Variable { min: 2700, max: 2700 },
                },
            ),
            134 => Some(
                ProductInfo {
                    name: "LIFX White Intl",
                    color: false,
                    infrared: false,
                    multizone: false,
                    chain: false,
                    hev: false,
                    matrix: false,
                    relays: false,
                    buttons: false,
                    temperature_range: TemperatureRange::Variable { min: 2700, max: 2700 },
                },
            ),
            135 => Some(
                ProductInfo {
                    name: "LIFX GU10 Color US",
                    color: true,
                    infrared: false,
                    multizone: false,
                    chain: false,
                    hev: false,
                    matrix: false,
                    relays: false,
                    buttons: false,
                    temperature_range: TemperatureRange::Variable { min: 1500, max: 9000 },
                },
            ),
            136 => Some(
                ProductInfo {
                    name: "LIFX GU10 Color Intl",
                    color: true,
                    infrared: false,
                    multizone: false,
                    chain: false,
                    hev: false,
                    matrix: false,
                    relays: false,
                    buttons: false,
                    temperature_range: TemperatureRange::Variable { min: 1500, max: 9000 },
                },
            ),
            137 => Some(
                ProductInfo {
                    name: "LIFX Candle Color US",
                    color: true,
                    infrared: false,
                    multizone: false,
                    chain: false,
                    hev: false,
                    matrix: true,
                    relays: false,
                    buttons: false,
                    temperature_range: TemperatureRange::Variable { min: 1500, max: 9000 },
                },
            ),
            138 => Some(
                ProductInfo {
                    name: "LIFX Candle Color Intl",
                    color: true,
                    infrared: false,
                    multizone: false,
                    chain: false,
                    hev: false,
                    matrix: true,
                    relays: false,
                    buttons: false,
                    temperature_range: TemperatureRange::Variable { min: 1500, max: 9000 },
                },
            ),
            _ => None,
        }
    }
}

/// Looks up what a LIFX product supports.
///
/// The vendor and product ids come from a `StateVersion` message.  The
/// data is taken from the published LIFX products list.
pub fn get_product_info(vendor: u32, product: u32) -> (r: Option<ProductInfo>)
    ensures
        r == spec_product_info(vendor, product),
{
    if vendor != 1 {
        return None;
    }
    match product {
        1 => Some(
            ProductInfo {
                name: "LIFX Original 1000",
                color: true,
                infrared: false,
                multizone: false,
                chain: false,
                hev: false,
                matrix: false,
                relays: false,
                buttons: false,
                temperature_range: TemperatureRange::Variable { min: 2500, max: 9000 },
            },
        ),
        3 => Some(
            ProductInfo {
                name: "LIFX Color 650",
                color: true,
                infrared: false,
                multizone: false,
                chain: false,
                hev: false,
                matrix: false,
                relays: false,
                buttons: false,
                temperature_range: TemperatureRange::Variable { min: 2500, max: 9000 },
            },
        ),
        10 => Some(
            ProductInfo {
                name: "LIFX White 800 (Low Voltage)",
                color: false,
                infrared: false,
                multizone: false,
                chain: false,
                hev: false,
                matrix: false,
                relays: false,
                buttons: false,
                temperature_range: TemperatureRange::Variable { min: 2700, max: 6500 },
            },
        ),
        11 => Some(
            ProductInfo {
                name: "LIFX White 800 (High Voltage)",
                color: false,
                infrared: false,
                multizone: false,
                chain: false,
                hev: false,
                matrix: false,
                relays: false,
                buttons: false,
                temperature_range: TemperatureRange::Variable { min: 2700, max: 6500 },
            },
        ),
        15 => Some(
            ProductInfo {
                name: "LIFX Color 1000",
                color: true,
                infrared: false,
                multizone: false,
                chain: false,
                hev: false,
                matrix: false,
                relays: false,
                buttons: false,
                temperature_range: TemperatureRange::Variable { min: 2500, max: 9000 },
            },
        ),
        18 => Some(
            ProductInfo {
                name: "LIFX White 900 BR30 (Low Voltage)",
                color: false,
                infrared: false,
                multizone: false,
                chain: false,
                hev: false,
                matrix: false,
                relays: false,
                buttons: false,
                temperature_range: TemperatureRange::Variable { min: 2500, max: 9000 },
            },
        ),
        19 => Some(
            ProductInfo {
                name: "LIFX White 900 BR30 (High Voltage)",
                color: false,
                infrared: false,
                multizone: false,
                chain: false,
                hev: false,
                matrix: false,
                relays: false,
                buttons: false,
                temperature_range: TemperatureRange::Variable { min: 2500, max: 9000 },
            },
        ),
        20 => Some(
            ProductInfo {
                name: "LIFX Color 1000 BR30",
                color: true,
                infrared: false,
                multizone: false,
                chain: false,
                hev: false,
                matrix: false,
                relays: false,
                buttons: false,
                temperature_range: TemperatureRange::Variable { min: 2500, max: 9000 },
            },
        ),
        22 => Some(
            ProductInfo {
                name: "LIFX Color 1000",
                color: true,
                infrared: false,
                multizone: false,
                chain: false,
                hev: false,
                matrix: false,
                relays: false,
                buttons: false,
                temperature_range: TemperatureRange::Variable { min: 2500, max: 9000 },
            },
        ),
        27 => Some(
            ProductInfo {
                name: "LIFX A19",
                color: true,
                infrared: false,
                multizone: false,
                chain: false,
                hev: false,
                matrix: false,
                relays: false,
                buttons: false,
                temperature_range: TemperatureRange::Variable { min: 2500, max: 9000 },
            },
        ),
        28 => Some(
            ProductInfo {
                name: "LIFX BR30",
                color: true,
                infrared: false,
                multizone: false,
                chain: false,
                hev: false,
                matrix: false,
                relays: false,
                buttons: false,
                temperature_range: TemperatureRange::Variable { min: 2500, max: 9000 },
            },
        ),
        29 => Some(
            ProductInfo {
                name: "LIFX A19 Night Vision",
                color: true,
                infrared: true,
                multizone: false,
                chain: false,
                hev: false,
                matrix: false,
                relays: false,
                buttons: false,
                temperature_range: TemperatureRange::Variable { min: 2500, max: 9000 },
            },
        ),
        30 => Some(
            ProductInfo {
                name: "LIFX BR30 Night Vision",
                color: true,
                infrared: true,
                multizone: false,
                chain: false,
                hev: false,
                matrix: false,
                relays: false,
                buttons: false,
                temperature_range: TemperatureRange::Variable { min: 2500, max: 9000 },
            },
        ),
        31 => Some(
            ProductInfo {
                name: "LIFX Z",
                color: true,
                infrared: false,
                multizone: true,
                chain: false,
                hev: false,
                matrix: false,
                relays: false,
                buttons: false,
                temperature_range: TemperatureRange::Variable { min: 2500, max: 9000 },
            },
        ),
        32 => Some(
            ProductInfo {
                name: "LIFX Z",
                color: true,
                infrared: false,
                multizone: true,
                chain: false,
                hev: false,
                matrix: false,
                relays: false,
                buttons: false,
                temperature_range: TemperatureRange::Variable { min: 2500, max: 9000 },
            },
        ),
        36 => Some(
            ProductInfo {
                name: "LIFX Downlight",
                color: true,
                infrared: false,
                multizone: false,
                chain: false,
                hev: false,
                matrix: false,
                relays: false,
                buttons: false,
                temperature_range: TemperatureRange::Variable { min: 2500, max: 9000 },
            },
        ),
        37 => Some(
            ProductInfo {
                name: "LIFX Downlight",
                color: true,
                infrared: false,
                multizone: false,
                chain: false,
                hev: false,
                matrix: false,
                relays: false,
                buttons: false,
                temperature_range: TemperatureRange::Variable { min: 2500, max: 9000 },
            },
        ),
        38 => Some(
            ProductInfo {
                name: "LIFX Beam",
                color: true,
                infrared: false,
                multizone: true,
                chain: false,
                hev: false,
                matrix: false,
                relays: false,
                buttons: false,
                temperature_range: TemperatureRange::Variable { min: 2500, max: 9000 },
            },
        ),
        39 => Some(
            ProductInfo {
                name: "LIFX Downlight White to Warm",
                color: false,
                infrared: false,
                multizone: false,
                chain: false,
                hev: false,
                matrix: false,
                relays: false,
                buttons: false,
                temperature_range: TemperatureRange::Variable { min: 2500, max: 9000 },
            },
        ),
        40 => Some(
            ProductInfo {
                name: "LIFX Downlight",
                color: true,
                infrared: false,
                multizone: false,
                chain: false,
                hev: false,
                matrix: false,
                relays: false,
                buttons: false,
                temperature_range: TemperatureRange::Variable { min: 2500, max: 9000 },
            },
        ),
        43 => Some(
            ProductInfo {
                name: "LIFX A19",
                color: true,
                infrared: false,
                multizone: false,
                chain: false,
                hev: false,
                matrix: false,
                relays: false,
                buttons: false,
                temperature_range: TemperatureRange::Variable { min: 2500, max: 9000 },
            },
        ),
        44 => Some(
            ProductInfo {
                name: "LIFX BR30",
                color: true,
                infrared: false,
                multizone: false,
                chain: false,
                hev: false,
                matrix: false,
                relays: false,
                buttons: false,
                temperature_range: TemperatureRange::Variable { min: 2500, max: 9000 },
            },
        ),
        45 => Some(
            ProductInfo {
                name: "LIFX A19 Night Vision",
                color: true,
                infrared: true,
                multizone: false,
                chain: false,
                hev: false,
                matrix: false,
                relays: false,
                buttons: false,
                temperature_range: TemperatureRange::Variable { min: 2500, max: 9000 },
            },
        ),
        46 => Some(
            ProductInfo {
                name: "LIFX BR30 Night Vision",
                color: true,
                infrared: true,
                multizone: false,
                chain: false,
                hev: false,
                matrix: false,
                relays: false,
                buttons: false,
                temperature_range: TemperatureRange::Variable { min: 2500, max: 9000 },
            },
        ),
        49 => Some(
            ProductInfo {
                name: "LIFX Mini Color",
                color: true,
                infrared: false,
                multizone: false,
                chain: false,
                hev: false,
                matrix: false,
                relays: false,
                buttons: false,
                temperature_range: TemperatureRange::Variable { min: 1500, max: 9000 },
            },
        ),
        50 => Some(
            ProductInfo {
                name: "LIFX Mini White to Warm",
                color: false,
                infrared: false,
                multizone: false,
                chain: false,
                hev: false,
                matrix: false,
                relays: false,
                buttons: false,
                temperature_range: TemperatureRange::Variable { min: 1500, max: 6500 },
            },
        ),
        51 => Some(
            ProductInfo {
                name: "LIFX Mini White",
                color: false,
                infrared: false,
                multizone: false,
                chain: false,
                hev: false,
                matrix: false,
                relays: false,
                buttons: false,
                temperature_range: TemperatureRange::Variable { min: 2700, max: 2700 },
            },
        ),
        52 => Some(
            ProductInfo {
                name: "LIFX GU10",
                color: true,
                infrared: false,
                multizone: false,
                chain: false,
                hev: false,
                matrix: false,
                relays: false,
                buttons: false,
                temperature_range: TemperatureRange::Variable { min: 1500, max: 9000 },
            },
        ),
        53 => Some(
            ProductInfo {
                name: "LIFX GU10",
                color: true,
                infrared: false,
                multizone: false,
                chain: false,
                hev: false,
                matrix: false,
                relays: false,
                buttons: false,
                temperature_range: TemperatureRange::Variable { min: 1500, max: 9000 },
            },
        ),
        55 => Some(
            ProductInfo {
                name: "LIFX Tile",
                color: true,
                infrared: false,
                multizone: false,
                chain: true,
                hev: false,
                matrix: true,
                relays: false,
                buttons: false,
                temperature_range: TemperatureRange::Variable { min: 2500, max: 9000 },
            },
        ),
        57 => Some(
            ProductInfo {
                name: "LIFX Candle",
                color: true,
                infrared: false,
                multizone: false,
                chain: false,
                hev: false,
                matrix: true,
                relays: false,
                buttons: false,
                temperature_range: TemperatureRange::Variable { min: 1500, max: 9000 },
            },
        ),
        59 => Some(
            ProductInfo {
                name: "LIFX Mini Color",
                color: true,
                infrared: false,
                multizone: false,
                chain: false,
                hev: false,
                matrix: false,
                relays: false,
                buttons: false,
                temperature_range: TemperatureRange::Variable { min: 1500, max: 9000 },
            },
        ),
        60 => Some(
            ProductInfo {
                name: "LIFX Mini White to Warm",
                color: false,
                infrared: false,
                multizone: false,
                chain: false,
                hev: false,
                matrix: false,
                relays: false,
                buttons: false,
                temperature_range: TemperatureRange::Variable { min: 1500, max: 6500 },
            },
        ),
        61 => Some(
            ProductInfo {
                name: "LIFX Mini White",
                color: false,
                infrared: false,
                multizone: false,
                chain: false,
                hev: false,
                matrix: false,
                relays: false,
                buttons: false,
                temperature_range: TemperatureRange::Variable { min: 2700, max: 2700 },
            },
        ),
        62 => Some(
            ProductInfo {
                name: "LIFX A19",
                color: true,
                infrared: false,
                multizone: false,
                chain: false,
                hev: false,
                matrix: false,
                relays: false,
                buttons: false,
                temperature_range: TemperatureRange::Variable { min: 1500, max: 9000 },
            },
        ),
        63 => Some(
            ProductInfo {
                name: "LIFX BR30",
                color: true,
                infrared: false,
                multizone: false,
                chain: false,
                hev: false,
                matrix: false,
                relays: false,
                buttons: false,
                temperature_range: TemperatureRange::Variable { min: 1500, max: 9000 },
            },
        ),
        64 => Some(
            ProductInfo {
                name: "LIFX A19 Night Vision",
                color: true,
                infrared: true,
                multizone: false,
                chain: false,
                hev: false,
                matrix: false,
                relays: false,
                buttons: false,
                temperature_range: TemperatureRange::Variable { min: 1500, max: 9000 },
            },
        ),
        65 => Some(
            ProductInfo {
                name: "LIFX BR30 Night Vision",
                color: true,
                infrared: true,
                multizone: false,
                chain: false,
                hev: false,
                matrix: false,
                relays: false,
                buttons: false,
                temperature_range: TemperatureRange::Variable { min: 1500, max: 9000 },
            },
        ),
        66 => Some(
            ProductInfo {
                name: "LIFX Mini White",
                color: false,
                infrared: false,
                multizone: false,
                chain: false,
                hev: false,
                matrix: false,
                relays: false,
                buttons: false,
                temperature_range: TemperatureRange::Variable { min: 2700, max: 2700 },
            },
        ),
        68 => Some(
            ProductInfo {
                name: "LIFX Candle",
                color: true,
                infrared: false,
                multizone: false,
                chain: false,
                hev: false,
                matrix: true,
                relays: false,
                buttons: false,
                temperature_range: TemperatureRange::Variable { min: 1500, max: 9000 },
            },
        ),
        70 => Some(
            ProductInfo {
                name: "LIFX Switch",
                color: false,
                infrared: false,
                multizone: false,
                chain: false,
                hev: false,
                matrix: false,
                relays: true,
                buttons: true,
                temperature_range: TemperatureRange::NoRange,
            },
        ),
        71 => Some(
            ProductInfo {
                name: "LIFX Switch",
                color: false,
                infrared: false,
                multizone: false,
                chain: false,
                hev: false,
                matrix: false,
                relays: true,
                buttons: true,
                temperature_range: TemperatureRange::NoRange,
            },
        ),
        81 => Some(
            ProductInfo {
                name: "LIFX Candle White to Warm",
                color: false,
                infrared: false,
                multizone: false,
                chain: false,
                hev: false,
                matrix: false,
                relays: false,
                buttons: false,
                temperature_range: TemperatureRange::Variable { min: 2200, max: 6500 },
            },
        ),
        82 => Some(
            ProductInfo {
                name: "LIFX Filament Clear",
                color: false,
                infrared: false,
                multizone: false,
                chain: false,
                hev: false,
                matrix: false,
                relays: false,
                buttons: false,
                temperature_range: TemperatureRange::Variable { min: 2100, max: 2100 },
            },
        ),
        85 => Some(
            ProductInfo {
                name: "LIFX Filament Amber",
                color: false,
                infrared: false,
                multizone: false,
                chain: false,
                hev: false,
                matrix: false,
                relays: false,
                buttons: false,
                temperature_range: TemperatureRange::Variable { min: 2000, max: 2000 },
            },
        ),
        87 => Some(
            ProductInfo {
                name: "LIFX Mini White",
                color: false,
                infrared: false,
                multizone: false,
                chain: false,
                hev: false,
                matrix: false,
                relays: false,
                buttons: false,
                temperature_range: TemperatureRange::Variable { min: 2700, max: 2700 },
            },
        ),
        88 => Some(
            ProductInfo {
                name: "LIFX Mini White",
                color: false,
                infrared: false,
                multizone: false,
                chain: false,
                hev: false,
                matrix: false,
                relays: false,
                buttons: false,
                temperature_range: TemperatureRange::Variable { min: 2700, max: 2700 },
            },
        ),
        89 => Some(
            ProductInfo {
                name: "LIFX Switch",
                color: false,
                infrared: false,
                multizone: false,
                chain: false,
                hev: false,
                matrix: false,
                relays: true,
                buttons: true,
                temperature_range: TemperatureRange::NoRange,
            },
        ),
        90 => Some(
            ProductInfo {
                name: "LIFX Clean",
                color: true,
                infrared: false,
                multizone: false,
                chain: false,
                hev: true,
                matrix: false,
                relays: false,
                buttons: false,
                temperature_range: TemperatureRange::Variable { min: 1500, max: 9000 },
            },
        ),
        91 => Some(
            ProductInfo {
                name: "LIFX Color",
                color: true,
                infrared: false,
                multizone: false,
                chain: false,
                hev: false,
                matrix: false,
                relays: false,
                buttons: false,
                temperature_range: TemperatureRange::Variable { min: 1500, max: 9000 },
            },
        ),
        92 => Some(
            ProductInfo {
                name: "LIFX Color",
                color: true,
                infrared: false,
                multizone: false,
                chain: false,
                hev: false,
                matrix: false,
                relays: false,
                buttons: false,
                temperature_range: TemperatureRange::Variable { min: 1500, max: 9000 },
            },
        ),
        93 => Some(
            ProductInfo {
                name: "LIFX A19 US",
                color: true,
                infrared: false,
                multizone: false,
                chain: false,
                hev: false,
                matrix: false,
                relays: false,
                buttons: false,
                temperature_range: TemperatureRange::Variable { min: 1500, max: 9000 },
            },
        ),
        94 => Some(
            ProductInfo {
                name: "LIFX BR30",
                color: true,
                infrared: false,
                multizone: false,
                chain: false,
                hev: false,
                matrix: false,
                relays: false,
                buttons: false,
                temperature_range: TemperatureRange::Variable { min: 1500, max: 9000 },
            },
        ),
        96 => Some(
            ProductInfo {
                name: "LIFX Candle White to Warm",
                color: false,
                infrared: false,
                multizone: false,
                chain: false,
                hev: false,
                matrix: false,
                relays: false,
                buttons: false,
                temperature_range: TemperatureRange::Variable { min: 2200, max: 6500 },
            },
        ),
        97 => Some(
            ProductInfo {
                name: "LIFX A19",
                color: true,
                infrared: false,
                multizone: false,
                chain: false,
                hev: false,
                matrix: false,
                relays: false,
                buttons: false,
                temperature_range: TemperatureRange::Variable { min: 1500, max: 9000 },
            },
        ),
        98 => Some(
            ProductInfo {
                name: "LIFX BR30",
                color: true,
                infrared: false,
                multizone: false,
                chain: false,
                hev: false,
                matrix: false,
                relays: false,
                buttons: false,
                temperature_range: TemperatureRange::Variable { min: 1500, max: 9000 },
            },
        ),
        99 => Some(
            ProductInfo {
                name: "LIFX Clean",
                color: true,
                infrared: false,
                multizone: false,
                chain: false,
                hev: true,
                matrix: false,
                relays: false,
                buttons: false,
                temperature_range: TemperatureRange::Variable { min: 1500, max: 9000 },
            },
        ),
        100 => Some(
            ProductInfo {
                name: "LIFX Filament Clear",
                color: false,
                infrared: false,
                multizone: false,
                chain: false,
                hev: false,
                matrix: false,
                relays: false,
                buttons: false,
                temperature_range: TemperatureRange::Variable { min: 2100, max: 2100 },
            },
        ),
        101 => Some(
            ProductInfo {
                name: "LIFX Filament Amber",
                color: false,
                infrared: false,
                multizone: false,
                chain: false,
                hev: false,
                matrix: false,
                relays: false,
                buttons: false,
                temperature_range: TemperatureRange::Variable { min: 2000, max: 2000 },
            },
        ),
        109 => Some(
            ProductInfo {
                name: "LIFX A19 Night Vision",
                color: true,
                infrared: true,
                multizone: false,
                chain: false,
                hev: false,
                matrix: false,
                relays: false,
                buttons: false,
                temperature_range: TemperatureRange::Variable { min: 1500, max: 9000 },
            },
        ),
        110 => Some(
            ProductInfo {
                name: "LIFX BR30 Night Vision",
                color: true,
                infrared: true,
                multizone: false,
                chain: false,
                hev: false,
                matrix: false,
                relays: false,
                buttons: false,
                temperature_range: TemperatureRange::Variable { min: 1500, max: 9000 },
            },
        ),
        111 => Some(
            ProductInfo {
                name: "LIFX A19 Night Vision",
                color: true,
                infrared: true,
                multizone: false,
                chain: false,
                hev: false,
                matrix: false,
                relays: false,
                buttons: false,
                temperature_range: TemperatureRange::Variable { min: 1500, max: 9000 },
            },
        ),
        112 => Some(
            ProductInfo {
                name: "LIFX BR30 Night Vision Intl",
                color: true,
                infrared: true,
                multizone: false,
                chain: false,
                hev: false,
                matrix: false,
                relays: false,
                buttons: false,
                temperature_range: TemperatureRange::Variable { min: 1500, max: 9000 },
            },
        ),
        113 => Some(
            ProductInfo {
                name: "LIFX Mini WW US",
                color: false,
                infrared: false,
                multizone: false,
                chain: false,
                hev: false,
                matrix: false,
                relays: false,
                buttons: false,
                temperature_range: TemperatureRange::Variable { min: 1500, max: 9000 },
            },
        ),
        114 => Some(
            ProductInfo {
                name: "LIFX Mini WW Intl",
                color: false,
                infrared: false,
                multizone: false,
                chain: false,
                hev: false,
                matrix: false,
                relays: false,
                buttons: false,
                temperature_range: TemperatureRange::Variable { min: 1500, max: 9000 },
            },
        ),
        115 => Some(
            ProductInfo {
                name: "LIFX Switch",
                color: false,
                infrared: false,
                multizone: false,
                chain: false,
                hev: false,
                matrix: false,
                relays: true,
                buttons: true,
                temperature_range: TemperatureRange::NoRange,
            },
        ),
        116 => Some(
            ProductInfo {
                name: "LIFX Switch",
                color: false,
                infrared: false,
                multizone: false,
                chain: false,
                hev: false,
                matrix: false,
                relays: true,
                buttons: true,
                temperature_range: TemperatureRange::NoRange,
            },
        ),
        117 => Some(
            ProductInfo {
                name: "LIFX Z",
                color: true,
                infrared: false,
                multizone: true,
                chain: false,
                hev: false,
                matrix: false,
                relays: false,
                buttons: false,
                temperature_range: TemperatureRange::Variable { min: 1500, max: 9000 },
            },
        ),
        118 => Some(
            ProductInfo {
                name: "LIFX Z",
                color: true,
                infrared: false,
                multizone: true,
                chain: false,
                hev: false,
                matrix: false,
                relays: false,
                buttons: false,
                temperature_range: TemperatureRange::Variable { min: 1500, max: 9000 },
            },
        ),
        119 => Some(
            ProductInfo {
                name: "LIFX Beam",
                color: true,
                infrared: false,
                multizone: true,
                chain: false,
                hev: false,
                matrix: false,
                relays: false,
                buttons: false,
                temperature_range: TemperatureRange::Variable { min: 1500, max: 9000 },
            },
        ),
        120 => Some(
            ProductInfo {
                name: "LIFX Beam",
                color: true,
                infrared: false,
                multizone: true,
                chain: false,
                hev: false,
                matrix: false,
                relays: false,
                buttons: false,
                temperature_range: TemperatureRange::Variable { min: 1500, max: 9000 },
            },
        ),
        123 => Some(
            ProductInfo {
                name: "LIFX Color US",
                color: true,
                infrared: false,
                multizone: false,
                chain: false,
                hev: false,
                matrix: false,
                relays: false,
                buttons: false,
                temperature_range: TemperatureRange::Variable { min: 1500, max: 9000 },
            },
        ),
        124 => Some(
            ProductInfo {
                name: "LIFX Color Intl",
                color: true,
                infrared: false,
                multizone: false,
                chain: false,
                hev: false,
                matrix: false,
                relays: false,
                buttons: false,
                temperature_range: TemperatureRange::Variable { min: 1500, max: 9000 },
            },
        ),
        125 => Some(
            ProductInfo {
                name: "LIFX White to Warm US",
                color: false,
                infrared: false,
                multizone: false,
                chain: false,
                hev: false,
                matrix: false,
                relays: false,
                buttons: false,
                temperature_range: TemperatureRange::Variable { min: 1500, max: 9000 },
            },
        ),
        126 => Some(
            ProductInfo {
                name: "LIFX White to Warm Intl",
                color: false,
                infrared: false,
                multizone: false,
                chain: false,
                hev: false,
                matrix: false,
                relays: false,
                buttons: false,
                temperature_range: TemperatureRange::Variable { min: 1500, max: 9000 },
            },
        ),
        127 => Some(
            ProductInfo {
                name: "LIFX White US",
                color: false,
                infrared: false,
                multizone: false,
                chain: false,
                hev: false,
                matrix: false,
                relays: false,
                buttons: false,
                temperature_range: TemperatureRange::Variable { min: 2700, max: 2700 },
            },
        ),
        128 => Some(
            ProductInfo {
                name: "LIFX White Intl",
                color: false,
                infrared: false,
                multizone: false,
                chain: false,
                hev: false,
                matrix: false,
                relays: false,
                buttons: false,
                temperature_range: TemperatureRange::Variable { min: 2700, max: 2700 },
            },
        ),
        129 => Some(
            ProductInfo {
                name: "LIFX Color US",
                color: true,
                infrared: false,
                multizone: false,
                chain: false,
                hev: false,
                matrix: false,
                relays: false,
                buttons: false,
                temperature_range: TemperatureRange::Variable { min: 1500, max: 9000 },
            },
        ),
        130 => Some(
            ProductInfo {
                name: "LIFX Color Intl",
                color: true,
                infrared: false,
                multizone: false,
                chain: false,
                hev: false,
                matrix: false,
                relays: false,
                buttons: false,
                temperature_range: TemperatureRange::Variable { min: 1500, max: 9000 },
            },
        ),
        131 => Some(
            ProductInfo {
                name: "LIFX White To Warm US",
                color: false,
                infrared: false,
                multizone: false,
                chain: false,
                hev: false,
                matrix: false,
                relays: false,
                buttons: false,
                temperature_range: TemperatureRange::Variable { min: 1500, max: 9000 },
            },
        ),
        132 => Some(
            ProductInfo {
                name: "LIFX White To Warm Intl",
                color: false,
                infrared: false,
                multizone: false,
                chain: false,
                hev: false,
                matrix: false,
                relays: false,
                buttons: false,
                temperature_range: TemperatureRange::Variable { min: 1500, max: 9000 },
            },
        ),
        133 => Some(
            ProductInfo {
                name: "LIFX White US",
                color: false,
                infrared: false,
                multizone: false,
                chain: false,
                hev: false,
                matrix: false,
                relays: false,
                buttons: false,
                temperature_range: TemperatureRange::Variable { min: 2700, max: 2700 },
            },
        ),
        134 => Some(
            ProductInfo {
                name: "LIFX White Intl",
                color: false,
                infrared: false,
                multizone: false,
                chain: false,
                hev: false,
                matrix: false,
                relays: false,
                buttons: false,
                temperature_range: TemperatureRange::Variable { min: 2700, max: 2700 },
            },
        ),
        135 => Some(
            ProductInfo {
                name: "LIFX GU10 Color US",
                color: true,
                infrared: false,
                multizone: false,
                chain: false,
                hev: false,
                matrix: false,
                relays: false,
                buttons: false,
                temperature_range: TemperatureRange::Variable { min: 1500, max: 9000 },
            },
        ),
        136 => Some(
            ProductInfo {
                name: "LIFX GU10 Color Intl",
                color: true,
                infrared: false,
                multizone: false,
                chain: false,
                hev: false,
                matrix: false,
                relays: false,
                buttons: false,
                temperature_range: TemperatureRange::Variable { min: 1500, max: 9000 },
            },
        ),
        137 => Some(
            ProductInfo {
                name: "LIFX Candle Color US",
                color: true,
                infrared: false,
                multizone: false,
                chain: false,
                hev: false,
                matrix: true,
                relays: false,
                buttons: false,
                temperature_range: TemperatureRange::Variable { min: 1500, max: 9000 },
            },
        ),
        138 => Some(
            ProductInfo {
                name: "LIFX Candle Color Intl",
                color: true,
                infrared: false,
                multizone: false,
                chain: false,
                hev: false,
                matrix: true,
                relays: false,
                buttons: false,
                temperature_range: TemperatureRange::Variable { min: 1500, max: 9000 },
            },
        ),
        _ => None,
    }
}

} // verus!
