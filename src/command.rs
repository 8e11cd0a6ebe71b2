use vstd::prelude::*;
use crate::params::Color;
use crate::raster::{Raster, pixel_at};

verus! {

/// Width and height of the image that `generate` writes.
pub const GENERATED_SIZE: u32 = 800;

/// A subcommand with its arguments, as given on the command line.
#[derive(Debug)]
pub enum Command {
    /// `blur SIGMA INFILE OUTFILE`
    Blur { sigma: String, infile: String, outfile: String },
    /// `brighten AMOUNT INFILE OUTFILE`
    Brighten { amount: String, infile: String, outfile: String },
    /// `crop XxYxWIDTHxHEIGHT INFILE OUTFILE`
    Crop { region: String, infile: String, outfile: String },
    /// `rotate DEGREES INFILE OUTFILE`
    Rotate { degrees: String, infile: String, outfile: String },
    /// `invert FILE`: the file is read and overwritten.
    Invert { file: String },
    /// `grayscale INFILE OUTFILE`
    Grayscale { infile: String, outfile: String },
    /// `fractal OUTFILE`
    Fractal { outfile: String },
    /// `generate RxGxB OUTFILE`
    Generate { color: String, outfile: String },
}

/// The command that the arguments (the program name left out) name, when the
/// subcommand is known and has its exact number of arguments.
pub open spec fn command_of(args: Seq<String>) -> Option<Command> {
    if args.len() == 0 {
        None
    } else {
        let name = args[0]@;
        let n = args.len() - 1;
        if name == "blur"@ && n == 3 {
            Some(Command::Blur { sigma: args[1], infile: args[2], outfile: args[3] })
        } else if name == "brighten"@ && n == 3 {
            Some(Command::Brighten { amount: args[1], infile: args[2], outfile: args[3] })
        } else if name == "crop"@ && n == 3 {
            Some(Command::Crop { region: args[1], infile: args[2], outfile: args[3] })
        } else if name == "rotate"@ && n == 3 {
            Some(Command::Rotate { degrees: args[1], infile: args[2], outfile: args[3] })
        } else if name == "invert"@ && n == 1 {
            Some(Command::Invert { file: args[1] })
        } else if name == "grayscale"@ && n == 2 {
            Some(Command::Grayscale { infile: args[1], outfile: args[2] })
        } else if name == "fractal"@ && n == 1 {
            Some(Command::Fractal { outfile: args[1] })
        } else if name == "generate"@ && n == 2 {
            Some(Command::Generate { color: args[1], outfile: args[2] })
        } else {
            None
        }
    }
}

/// Whether `a` and `b` hold the same characters.
pub fn same_text(a: &str, b: &str) -> (r: bool)
    ensures
        r == (a@ == b@),
{
    let n = a.unicode_len();
    if n != b.unicode_len() {
        return false;
    }
    let mut i: usize = 0;
    while i < n
        invariant
            n == a@.len(),
            n == b@.len(),
            i <= n,
            forall|j: int| 0 <= j < i ==> a@[j] == b@[j],
        decreases n - i,
    {
        if a.get_char(i) != b.get_char(i) {
            return false;
        }
        i = i + 1;
    }
    assert(a@ =~= b@);
    true
}

/// Reads the subcommand and its arguments; `None` when the subcommand is
/// unknown or has the wrong number of arguments.
pub fn parse_command(args: &Vec<String>) -> (r: Option<Command>)
    ensures
        r == command_of(args@),
{
    if args.len() == 0 {
        return None;
    }
    let name = args[0].as_str();
    let n = args.len() - 1;
    if same_text(name, "blur") && n == 3 {
        Some(
            Command::Blur {
                sigma: args[1].clone(),
                infile: args[2].clone(),
                outfile: args[3].clone(),
            },
        )
    } else if same_text(name, "brighten") && n == 3 {
        Some(
            Command::Brighten {
                amount: args[1].clone(),
                infile: args[2].clone(),
                outfile: args[3].clone(),
            },
        )
    } else if same_text(name, "crop") && n == 3 {
        Some(
            Command::Crop {
                region: args[1].clone(),
                infile: args[2].clone(),
                outfile: args[3].clone(),
            },
        )
    } else if same_text(name, "rotate") && n == 3 {
        Some(
            Command::Rotate {
                degrees: args[1].clone(),
                infile: args[2].clone(),
                outfile: args[3].clone(),
            },
        )
    } else if same_text(name, "invert") && n == 1 {
        Some(Command::Invert { file: args[1].clone() })
    } else if same_text(name, "grayscale") && n == 2 {
        Some(Command::Grayscale { infile: args[1].clone(), outfile: args[2].clone() })
    } else if same_text(name, "fractal") && n == 1 {
        Some(Command::Fractal { outfile: args[1].clone() })
    } else if same_text(name, "generate") && n == 2 {
        Some(Command::Generate { color: args[1].clone(), outfile: args[2].clone() })
    } else {
        None
    }
}

/// The image that `generate` writes: 800 by 800 pixels, all of `color`.
pub fn generated_raster(color: Color) -> (r: Raster)
    ensures
        r.width == GENERATED_SIZE,
        r.height == GENERATED_SIZE,
        r.wf(),
        forall|p: int|
            0 <= p < GENERATED_SIZE * GENERATED_SIZE ==> #[trigger] pixel_at(r.data@, p) == (
                color.red,
                color.green,
                color.blue,
            ),
{
    Raster::solid(GENERATED_SIZE, GENERATED_SIZE, color)
}

} // verus!
