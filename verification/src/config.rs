//! Parsed command-line input and its domain validation. Parsing and
//! validation are two stages: a `Cli` value is whatever the command line
//! said, a `Config` exists only once validation has accepted it.

use vstd::prelude::*;
use crate::error::Error;

verus! {

/// The parsed command line: a subcommand and the global verbose flag.
#[derive(Debug)]
pub struct Cli {
    pub command: Commands,
    pub verbose: bool,
}

/// The subcommands of the client.
#[derive(Debug)]
pub enum Commands {
    Download {
        count: u32,
        width: u32,
        height: u32,
        output: String,
        grayscale: bool,
        blur: Option<u32>,
        quality: Option<u32>,
        concurrent: usize,
        prefix: String,
        format: String,
    },
    Info { id: u32 },
    List { page: u32, limit: u32 },
    Search { author: String, limit: u32 },
}

/// A validated invocation: the operation to run and the verbose flag.
#[derive(Debug)]
pub struct Config {
    pub operation: Operation,
    pub verbose: bool,
}

/// The validated operation.
#[derive(Debug)]
pub enum Operation {
    Download(DownloadConfig),
    Info(InfoConfig),
    List(ListConfig),
    Search(SearchConfig),
}

/// A validated batch-download request.
#[derive(Debug)]
pub struct DownloadConfig {
    pub count: u32,
    pub dimensions: ImageDimensions,
    pub output_dir: String,
    pub effects: ImageEffects,
    pub concurrent_limit: usize,
    pub filename_config: FilenameConfig,
}

/// Requested image dimensions in pixels.
#[derive(Debug, Clone, Copy)]
pub struct ImageDimensions {
    pub width: u32,
    pub height: u32,
}

/// Optional rendering effects of a download request.
#[derive(Debug, Clone, Copy)]
pub struct ImageEffects {
    pub grayscale: bool,
    pub blur: Option<u32>,
    pub quality: Option<u32>,
}

/// The filename scheme of a download request.
#[derive(Debug)]
pub struct FilenameConfig {
    pub prefix: String,
    pub format: String,
}

/// A single-image metadata request.
#[derive(Debug, Clone, Copy)]
pub struct InfoConfig {
    pub id: u32,
}

/// A catalog-page listing request.
#[derive(Debug, Clone, Copy)]
pub struct ListConfig {
    pub page: u32,
    pub limit: u32,
}

/// An author-search request.
#[derive(Debug)]
pub struct SearchConfig {
    pub author: String,
    pub limit: u32,
}

impl DownloadConfig {
    /// Every bound that validation enforces on a download request.
    pub open spec fn valid(&self) -> bool {
        spec_download_params_ok(
            self.count,
            self.dimensions.width,
            self.dimensions.height,
            self.effects.blur,
            self.effects.quality,
            self.concurrent_limit,
        )
    }
}

/// Whether `c` is a Unicode whitespace character.
pub open spec fn spec_is_space(c: char) -> bool {
    let u = c as u32;
    u == 0x20 || (0x09 <= u && u <= 0x0D) || u == 0x85 || u == 0xA0 || u == 0x1680 || (0x2000 <= u
        && u <= 0x200A) || u == 0x2028 || u == 0x2029 || u == 0x202F || u == 0x205F || u == 0x3000
}

/// Whether `s` holds no character besides whitespace.
pub open spec fn spec_is_blank(s: Seq<char>) -> bool {
    forall|i: int| 0 <= i < s.len() ==> spec_is_space(#[trigger] s[i])
}

/// Whether `c` is a Unicode whitespace character.
fn is_space_char(c: char) -> (r: bool)
    ensures
        r == spec_is_space(c),
{
    let u: u32 = c as u32;
    u == 0x20 || (0x09 <= u && u <= 0x0D) || u == 0x85 || u == 0xA0 || u == 0x1680 || (0x2000 <= u
        && u <= 0x200A) || u == 0x2028 || u == 0x2029 || u == 0x202F || u == 0x205F || u == 0x3000
}

/// Whether `s` trims to the empty string: every character is whitespace.
pub fn is_blank(s: &str) -> (r: bool)
    ensures
        r == spec_is_blank(s@),
{
    let n = s.unicode_len();
    let mut i: usize = 0;
    while i < n
        invariant
            0 <= i <= n,
            n == s@.len(),
            forall|j: int| 0 <= j < i ==> spec_is_space(#[trigger] s@[j]),
        decreases n - i,
    {
        let c = s.get_char(i);
        if !is_space_char(c) {
            return false;
        }
        i = i + 1;
    }
    true
}

/// Every bound that a download request must satisfy: positive count and
/// dimensions, blur between 1 and 9, quality between 1 and 100, concurrency
/// between 1 and 20.
pub open spec fn spec_download_params_ok(
    count: u32,
    width: u32,
    height: u32,
    blur: Option<u32>,
    quality: Option<u32>,
    concurrent: usize,
) -> bool {
    &&& count > 0
    &&& width > 0
    &&& height > 0
    &&& (blur matches Some(b) ==> 1 <= b && b <= 9)
    &&& (quality matches Some(q) ==> 1 <= q && q <= 100)
    &&& 1 <= concurrent && concurrent <= 20
}

/// The message of the first validation check that a download request fails.
pub open spec fn spec_download_params_msg(
    count: u32,
    width: u32,
    height: u32,
    blur: Option<u32>,
    quality: Option<u32>,
    concurrent: usize,
) -> Seq<char> {
    if count == 0 {
        "Count must be greater than 0"@
    } else if width == 0 || height == 0 {
        "Width and height must be greater than 0"@
    } else if blur matches Some(b) && (b == 0 || b >= 10) {
        "Blur level must be between 1 and 10"@
    } else if quality matches Some(q) && (q == 0 || q > 100) {
        "Quality must be between 1 and 100"@
    } else {
        "Concurrent downloads must be between 1 and 20"@
    }
}

/// Checks the bounds of a download request, reporting the first violated
/// check as a configuration error.
pub fn validate_download_params(
    count: u32,
    width: u32,
    height: u32,
    blur: Option<u32>,
    quality: Option<u32>,
    concurrent: usize,
) -> (r: Result<(), Error>)
    ensures
        r is Ok <==> spec_download_params_ok(count, width, height, blur, quality, concurrent),
        r matches Err(e) ==> (e matches Error::Config(m) && m@ == spec_download_params_msg(
            count,
            width,
            height,
            blur,
            quality,
            concurrent,
        )),
{
    if count == 0 {
        return Err(Error::Config("Count must be greater than 0".to_owned()));
    }
    if width == 0 || height == 0 {
        return Err(Error::Config("Width and height must be greater than 0".to_owned()));
    }
    if let Some(blur_level) = blur {
        if blur_level == 0 || blur_level >= 10 {
            return Err(Error::Config("Blur level must be between 1 and 10".to_owned()));
        }
    }
    if let Some(quality_level) = quality {
        if quality_level == 0 || quality_level > 100 {
            return Err(Error::Config("Quality must be between 1 and 100".to_owned()));
        }
    }
    if concurrent == 0 || concurrent > 20 {
        return Err(Error::Config("Concurrent downloads must be between 1 and 20".to_owned()));
    }
    Ok(())
}

impl Config {
    /// Validates a parsed command line into a configuration. A `Download`
    /// command passes the bounds of `spec_download_params_ok`, a `List`
    /// command caps its limit at 100, a `Search` command needs a non-blank
    /// author; `Info` always passes. The rejected input's first violated
    /// check decides the configuration error.
    pub fn from_cli(cli: Cli) -> (r: Result<Self, Error>)
        ensures
            (match cli.command {
                Commands::Download {
                    count,
                    width,
                    height,
                    output,
                    grayscale,
                    blur,
                    quality,
                    concurrent,
                    prefix,
                    format,
                } => {
                    &&& (r is Ok <==> spec_download_params_ok(
                        count,
                        width,
                        height,
                        blur,
                        quality,
                        concurrent,
                    ))
                    &&& (r matches Ok(c) ==> {
                        &&& c.verbose == cli.verbose
                        &&& c.operation matches Operation::Download(d)
                        &&& d.count == count
                        &&& d.dimensions.width == width
                        &&& d.dimensions.height == height
                        &&& d.output_dir@ == output@
                        &&& d.effects.grayscale == grayscale
                        &&& d.effects.blur == blur
                        &&& d.effects.quality == quality
                        &&& d.concurrent_limit == concurrent
                        &&& d.filename_config.prefix@ == prefix@
                        &&& d.filename_config.format@ == format@
                        &&& d.valid()
                    })
                    &&& (r matches Err(e) ==> (e matches Error::Config(m) && m@
                        == spec_download_params_msg(count, width, height, blur, quality, concurrent)))
                },
                Commands::Info { id } => {
                    &&& r is Ok
                    &&& (r matches Ok(c) ==> c.verbose == cli.verbose && (c.operation matches
                    Operation::Info(ic) && ic.id == id))
                },
                Commands::List { page, limit } => {
                    &&& (r is Ok <==> limit <= 100)
                    &&& (r matches Ok(c) ==> c.verbose == cli.verbose && (c.operation matches
                    Operation::List(lc) && lc.page == page && lc.limit == limit))
                    &&& (r matches Err(e) ==> (e matches Error::Config(m) && m@
                        == "Limit cannot exceed 100"@))
                },
                Commands::Search { author, limit } => {
                    &&& (r is Ok <==> !spec_is_blank(author@))
                    &&& (r matches Ok(c) ==> c.verbose == cli.verbose && (c.operation matches
                    Operation::Search(sc) && sc.author@ == author@ && sc.limit == limit))
                    &&& (r matches Err(e) ==> (e matches Error::Config(m) && m@
                        == "Author name cannot be empty"@))
                },
            }),
    {
        let verbose = cli.verbose;
        let operation = match cli.command {
            Commands::Download {
                count,
                width,
                height,
                output,
                grayscale,
                blur,
                quality,
                concurrent,
                prefix,
                format,
            } => {
                match validate_download_params(count, width, height, blur, quality, concurrent) {
                    Ok(()) => {},
                    Err(e) => {
                        return Err(e);
                    },
                }
                Operation::Download(
                    DownloadConfig {
                        count,
                        dimensions: ImageDimensions { width, height },
                        output_dir: output,
                        effects: ImageEffects { grayscale, blur, quality },
                        concurrent_limit: concurrent,
                        filename_config: FilenameConfig { prefix, format },
                    },
                )
            },
            Commands::Info { id } => Operation::Info(InfoConfig { id }),
            Commands::List { page, limit } => {
                if limit > 100 {
                    return Err(Error::Config("Limit cannot exceed 100".to_owned()));
                }
                Operation::List(ListConfig { page, limit })
            },
            Commands::Search { author, limit } => {
                if is_blank(author.as_str()) {
                    return Err(Error::Config("Author name cannot be empty".to_owned()));
                }
                Operation::Search(SearchConfig { author, limit })
            },
        };
        Ok(Config { operation, verbose })
    }
}

} // verus!
