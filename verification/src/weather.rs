//! Weather items: the fetched snapshot the tile displays, the mapping of
//! weather-service condition codes onto display classes, and the small
//! computations on fetched values.  The network fetch itself lives with
//! the caller; this module only consumes its plain values.

use vstd::prelude::*;

use crate::launcher::str_text_eq;
use vstd::string::StringExecFns;

verus! {

/// Display class of a weather condition, named after its icon.
#[derive(Clone, Copy, PartialEq, Eq, Structural, Debug)]
pub enum WeatherClass {
    Clear,
    FewClouds,
    ManyClouds,
    Mist,
    Showers,
    FreezingScatteredRainStorm,
    FreezingScatteredRain,
    Storm,
    SnowScatteredDay,
    SnowStorm,
    SnowScatteredStorm,
    ShowersScattered,
    NoneAvailable,
}

/// The display class a weather-service condition code stands for.
pub open spec fn weather_class_of(c: Seq<char>) -> WeatherClass {
    if c == "113"@ {
        WeatherClass::Clear
    } else if c == "116"@ {
        WeatherClass::FewClouds
    } else if c == "119"@ || c == "122"@ {
        WeatherClass::ManyClouds
    } else if c == "143"@ || c == "248"@ || c == "260"@ {
        WeatherClass::Mist
    } else if c == "176"@ || c == "263"@ || c == "299"@ || c == "305"@ || c == "353"@ || c
        == "356"@ {
        WeatherClass::Showers
    } else if c == "179"@ || c == "362"@ || c == "365"@ || c == "374"@ {
        WeatherClass::FreezingScatteredRainStorm
    } else if c == "182"@ || c == "185"@ || c == "281"@ || c == "284"@ || c == "311"@ || c
        == "314"@ || c == "317"@ || c == "350"@ || c == "377"@ {
        WeatherClass::FreezingScatteredRain
    } else if c == "200"@ || c == "302"@ || c == "308"@ || c == "359"@ || c == "386"@ || c
        == "389"@ {
        WeatherClass::Storm
    } else if c == "227"@ || c == "320"@ {
        WeatherClass::SnowScatteredDay
    } else if c == "230"@ || c == "329"@ || c == "332"@ || c == "338"@ {
        WeatherClass::SnowStorm
    } else if c == "323"@ || c == "326"@ || c == "335"@ || c == "368"@ || c == "371"@ || c
        == "392"@ || c == "395"@ {
        WeatherClass::SnowScatteredStorm
    } else if c == "266"@ || c == "293"@ || c == "296"@ {
        WeatherClass::ShowersScattered
    } else {
        WeatherClass::NoneAvailable
    }
}

impl WeatherClass {
    /// The kebab-case class name, used to pick the icon.
    pub open spec fn name_spec(self) -> Seq<char> {
        match self {
            WeatherClass::Clear => "clear"@,
            WeatherClass::FewClouds => "few-clouds"@,
            WeatherClass::ManyClouds => "many-clouds"@,
            WeatherClass::Mist => "mist"@,
            WeatherClass::Showers => "showers"@,
            WeatherClass::FreezingScatteredRainStorm => "freezing-scattered-rain-storm"@,
            WeatherClass::FreezingScatteredRain => "freezing-scattered-rain"@,
            WeatherClass::Storm => "storm"@,
            WeatherClass::SnowScatteredDay => "snow-scattered-day"@,
            WeatherClass::SnowStorm => "snow-storm"@,
            WeatherClass::SnowScatteredStorm => "snow-scattered-storm"@,
            WeatherClass::ShowersScattered => "showers-scattered"@,
            WeatherClass::NoneAvailable => "none-available"@,
        }
    }

    /// The kebab-case class name as a string.
    pub fn class_name(&self) -> (r: String)
        ensures
            r@ == self.name_spec(),
    {
        match self {
            WeatherClass::Clear => "clear".to_owned(),
            WeatherClass::FewClouds => "few-clouds".to_owned(),
            WeatherClass::ManyClouds => "many-clouds".to_owned(),
            WeatherClass::Mist => "mist".to_owned(),
            WeatherClass::Showers => "showers".to_owned(),
            WeatherClass::FreezingScatteredRainStorm => "freezing-scattered-rain-storm".to_owned(),
            WeatherClass::FreezingScatteredRain => "freezing-scattered-rain".to_owned(),
            WeatherClass::Storm => "storm".to_owned(),
            WeatherClass::SnowScatteredDay => "snow-scattered-day".to_owned(),
            WeatherClass::SnowStorm => "snow-storm".to_owned(),
            WeatherClass::SnowScatteredStorm => "snow-scattered-storm".to_owned(),
            WeatherClass::ShowersScattered => "showers-scattered".to_owned(),
            WeatherClass::NoneAvailable => "none-available".to_owned(),
        }
    }
}

/// The weather snapshot a weather item displays.
pub struct WeatherData {
    pub temperature: String,
    pub icon: Option<String>,
    pub format_str: String,
    pub location: String,
    pub css: WeatherClass,
    /// Sunset as minutes after midnight.
    pub sunset_minutes: u32,
    pub init: bool,
}

impl WeatherData {
    /// The placeholder shown before the first fetch completes.
    pub fn uninitialized() -> (r: WeatherData)
        ensures
            r.temperature@.len() == 0,
            r.format_str@.len() == 0,
            r.location@.len() == 0,
            r.icon is None,
            r.css == WeatherClass::NoneAvailable,
            r.sunset_minutes == 0,
            !r.init,
    {
        WeatherData {
            temperature: String::new(),
            icon: Option::None,
            format_str: String::new(),
            location: String::new(),
            css: WeatherClass::NoneAvailable,
            sunset_minutes: 0,
            init: false,
        }
    }

    /// Assembles the snapshot a weather item displays from the plain
    /// values a fetch produced: the temperature with its unit, the
    /// condition code mapped onto its display class, and the label line
    /// with the wind direction arrow and speed.
    pub fn from_fetch(
        location_label: &str,
        location: &str,
        temp_value: &str,
        fahrenheit: bool,
        code: &str,
        icon: Option<String>,
        wind_degrees: u32,
        wind_speed: &str,
        imperial: bool,
        sunset_minutes: u32,
    ) -> (r: WeatherData)
        ensures
            r.temperature@ == temp_value@ + (if fahrenheit {
                "\u{b0}F"@
            } else {
                "\u{b0}C"@
            }),
            r.css == weather_class_of(code@),
            r.format_str@ == location_label@ + "  "@ + wind_arrow_spec(
                ((2 * (wind_degrees as int) + 45) / 90) % 8,
            ) + " "@ + wind_speed@ + (if imperial {
                "mph"@
            } else {
                "km/h"@
            }),
            r.location@ == location@,
            r.icon == icon,
            r.sunset_minutes == sunset_minutes,
            r.init,
    {
        let mut temperature = String::from_str(temp_value);
        temperature.append(
            if fahrenheit {
                "\u{b0}F"
            } else {
                "\u{b0}C"
            },
        );
        let sector = wind_direction_index(wind_degrees);
        let mut format_str = String::from_str(location_label);
        format_str.append("  ");
        format_str.append(wind_arrow(sector));
        format_str.append(" ");
        format_str.append(wind_speed);
        format_str.append(
            if imperial {
                "mph"
            } else {
                "km/h"
            },
        );
        WeatherData {
            temperature,
            icon,
            format_str,
            location: location.to_owned(),
            css: Self::match_weather_code(code),
            sunset_minutes,
            init: true,
        }
    }

    /// Maps a condition code from the weather service onto its display
    /// class.
    pub fn match_weather_code(code: &str) -> (r: WeatherClass)
        ensures
            r == weather_class_of(code@),
    {
        if str_text_eq(code, "113") {
            WeatherClass::Clear
        } else if str_text_eq(code, "116") {
            WeatherClass::FewClouds
        } else if str_text_eq(code, "119") || str_text_eq(code, "122") {
            WeatherClass::ManyClouds
        } else if str_text_eq(code, "143") || str_text_eq(code, "248") || str_text_eq(
            code,
            "260",
        ) {
            WeatherClass::Mist
        } else if str_text_eq(code, "176") || str_text_eq(code, "263") || str_text_eq(code, "299")
            || str_text_eq(code, "305") || str_text_eq(code, "353") || str_text_eq(code, "356") {
            WeatherClass::Showers
        } else if str_text_eq(code, "179") || str_text_eq(code, "362") || str_text_eq(code, "365")
            || str_text_eq(code, "374") {
            WeatherClass::FreezingScatteredRainStorm
        } else if str_text_eq(code, "182") || str_text_eq(code, "185") || str_text_eq(code, "281")
            || str_text_eq(code, "284") || str_text_eq(code, "311") || str_text_eq(code, "314")
            || str_text_eq(code, "317") || str_text_eq(code, "350") || str_text_eq(code, "377") {
            WeatherClass::FreezingScatteredRain
        } else if str_text_eq(code, "200") || str_text_eq(code, "302") || str_text_eq(code, "308")
            || str_text_eq(code, "359") || str_text_eq(code, "386") || str_text_eq(code, "389") {
            WeatherClass::Storm
        } else if str_text_eq(code, "227") || str_text_eq(code, "320") {
            WeatherClass::SnowScatteredDay
        } else if str_text_eq(code, "230") || str_text_eq(code, "329") || str_text_eq(code, "332")
            || str_text_eq(code, "338") {
            WeatherClass::SnowStorm
        } else if str_text_eq(code, "323") || str_text_eq(code, "326") || str_text_eq(code, "335")
            || str_text_eq(code, "368") || str_text_eq(code, "371") || str_text_eq(code, "392")
            || str_text_eq(code, "395") {
            WeatherClass::SnowScatteredStorm
        } else if str_text_eq(code, "266") || str_text_eq(code, "293") || str_text_eq(
            code,
            "296",
        ) {
            WeatherClass::ShowersScattered
        } else {
            WeatherClass::NoneAvailable
        }
    }
}

/// The arrow shown for one of the eight compass sectors, north first,
/// clockwise.
pub open spec fn wind_arrow_spec(sector: int) -> Seq<char> {
    if sector == 0 {
        "\u{2191}"@
    } else if sector == 1 {
        "\u{2197}"@
    } else if sector == 2 {
        "\u{2192}"@
    } else if sector == 3 {
        "\u{2198}"@
    } else if sector == 4 {
        "\u{2193}"@
    } else if sector == 5 {
        "\u{2199}"@
    } else if sector == 6 {
        "\u{2190}"@
    } else {
        "\u{2196}"@
    }
}

/// The arrow shown for one of the eight compass sectors.
pub fn wind_arrow(sector: usize) -> (r: &'static str)
    ensures
        r@ == wind_arrow_spec(sector as int),
{
    if sector == 0 {
        "\u{2191}"
    } else if sector == 1 {
        "\u{2197}"
    } else if sector == 2 {
        "\u{2192}"
    } else if sector == 3 {
        "\u{2198}"
    } else if sector == 4 {
        "\u{2193}"
    } else if sector == 5 {
        "\u{2199}"
    } else if sector == 6 {
        "\u{2190}"
    } else {
        "\u{2196}"
    }
}

/// The compass sector of a wind direction, one of eight, from degrees.
/// Sector 0 is north, and sectors advance clockwise every 45 degrees,
/// switching over halfway between two directions.
pub fn wind_direction_index(degrees: u32) -> (r: usize)
    ensures
        r == ((2 * (degrees as int) + 45) / 90) % 8,
        r < 8,
{
    let half_steps = 2 * (degrees as u64) + 45;
    ((half_steps / 90) % 8) as usize
}

/// Length units that call for wind speed in miles per hour.
pub fn is_imperial_length_unit(unit: &str) -> (r: bool)
    ensures
        r == (unit@ == "inches"@ || unit@ == "inch"@ || unit@ == "in"@ || unit@ == "feet"@ || unit@
            == "foot"@ || unit@ == "ft"@ || unit@ == "yards"@ || unit@ == "yard"@ || unit@ == "yd"@
            || unit@ == "miles"@ || unit@ == "mile"@ || unit@ == "mi"@),
{
    str_text_eq(unit, "inches") || str_text_eq(unit, "inch") || str_text_eq(unit, "in")
        || str_text_eq(unit, "feet") || str_text_eq(unit, "foot") || str_text_eq(unit, "ft")
        || str_text_eq(unit, "yards") || str_text_eq(unit, "yard") || str_text_eq(unit, "yd")
        || str_text_eq(unit, "miles") || str_text_eq(unit, "mile") || str_text_eq(unit, "mi")
}

} // verus!
