//! The settings of a viewer as the command line gives them.
//!
//! After the name of the program come, each optional and in this order, the
//! number of samples per pixel, the name of the colormap and the color of the
//! wireframe.

use std::num::ParseIntError;
use vstd::prelude::*;

verus! {

/// The number of samples per pixel where the command line gives none.
pub const DEFAULT_SAMPLE_COUNT: u32 = 1;

/// What the command line asks for.
#[derive(Copy, Clone, Debug, PartialEq, Eq)]
pub struct Settings<'a> {
    pub sample_count: u32,
    pub colormap_name: &'a str,
    pub wireframe_color: &'a str,
}

/// Why a command line gives no settings.
#[derive(Copy, Clone, Debug, PartialEq, Eq, Structural)]
pub enum SettingsError {
    /// The first argument is not a number of samples.
    SampleCount,
}

#[verifier::external_type_specification]
#[verifier::external_body]
pub struct ExParseIntError(ParseIntError);

/// The number that `str::parse::<u32>` reads from a text, where it reads one.
pub uninterp spec fn parsed_u32(text: Seq<char>) -> Option<u32>;

/// Reads a number with `str::parse::<u32>`. Which texts are numbers is left
/// to the standard library: the contract gives the outcome a name, for it
/// depends on the text alone, and says no more of it.
#[verifier::external_body]
fn parse_u32(text: &str) -> (number: Result<u32, ParseIntError>)
    ensures
        match number {
            Ok(n) => parsed_u32(text@) == Some(n),
            Err(_) => parsed_u32(text@) is None,
        },
{
    text.parse::<u32>()
}

/// The number of samples that the arguments ask for, where `parsed` is what
/// the first argument reads as: the default without a first argument, and
/// none where the first argument is no number.
pub open spec fn sample_count_of(args: Seq<String>, parsed: Option<u32>) -> Option<u32> {
    if args.len() > 1 {
        parsed
    } else {
        Some(DEFAULT_SAMPLE_COUNT)
    }
}

/// The name of the colormap: the second argument, or `jet` without one.
pub open spec fn colormap_name_of(args: Seq<String>) -> Seq<char> {
    if args.len() > 2 {
        args[2]@
    } else {
        "jet"@
    }
}

/// The color of the wireframe: the third argument, or `white` without one.
pub open spec fn wireframe_color_of(args: Seq<String>) -> Seq<char> {
    if args.len() > 3 {
        args[3]@
    } else {
        "white"@
    }
}

/// Whether `outcome` is what the arguments ask for, where `parsed` is what
/// the first argument reads as.
pub open spec fn chosen(
    outcome: Result<Settings<'_>, SettingsError>,
    args: Seq<String>,
    parsed: Option<u32>,
) -> bool {
    match outcome {
        Ok(settings) => {
            &&& sample_count_of(args, parsed) == Some(settings.sample_count)
            &&& settings.colormap_name@ == colormap_name_of(args)
            &&& settings.wireframe_color@ == wireframe_color_of(args)
        },
        Err(_) => sample_count_of(args, parsed) is None,
    }
}

impl<'a> Settings<'a> {
    /// The settings that `args` ask for, where `parsed` is the number that
    /// the first argument reads as. `args` begins with the name of the program.
    pub fn with_sample_count(args: &'a Vec<String>, parsed: Option<u32>) -> (outcome: Result<
        Settings<'a>,
        SettingsError,
    >)
        ensures
            chosen(outcome, args@, parsed),
    {
        let mut sample_count: u32 = DEFAULT_SAMPLE_COUNT;
        let mut colormap_name: &'a str = "jet";
        let mut wireframe_color: &'a str = "white";
        if args.len() > 1 {
            match parsed {
                Some(number) => {
                    sample_count = number;
                },
                None => {
                    return Err(SettingsError::SampleCount);
                },
            }
        }
        if args.len() > 2 {
            colormap_name = args[2].as_str();
        }
        if args.len() > 3 {
            wireframe_color = args[3].as_str();
        }
        Ok(Settings { sample_count, colormap_name, wireframe_color })
    }

    /// The settings that `args` ask for. `args` begins with the name of the program.
    pub fn from_args(args: &'a Vec<String>) -> (outcome: Result<Settings<'a>, SettingsError>)
        ensures
            args.len() > 1 ==> chosen(outcome, args@, parsed_u32(args@[1]@)),
            args.len() <= 1 ==> chosen(outcome, args@, None),
    {
        let parsed: Option<u32> = if args.len() > 1 {
            match parse_u32(args[1].as_str()) {
                Ok(number) => Some(number),
                Err(_) => None,
            }
        } else {
            None
        };
        Self::with_sample_count(args, parsed)
    }
}

} // verus!
