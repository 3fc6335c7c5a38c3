//! The texts that the program prints about itself: help, license and version.

use crate::text::{chars_of, matches_at};
use vstd::prelude::*;

verus! {

/// The help text. Each `*` stands for the path separator, `EXE_NAME` for the name of the
/// program file.
pub const HELP_TEMPLATE: &'static str = "WhiteboxTools Help

The following commands are recognized:
--cd, --wd       Changes the working directory; used in conjunction with --run flag.
-h, --help       Prints help information.
-l, --license    Prints the whitebox-tools license.
--listtools      Lists all available tools. Keywords may also be used, --listtools slope.
-r, --run        Runs a tool; used in conjuction with --wd flag; -r=\"LidarInfo\".
--toolbox        Prints the toolbox associated with a tool; --toolbox=Slope.
--toolhelp       Prints the help associated with a tool; --toolhelp=\"LidarInfo\".
--toolparameters Prints the parameters (in json form) for a specific tool; --toolparameters=\"LidarInfo\".
-v               Verbose mode. Without this flag, tool outputs will not be printed.
--viewcode       Opens the source code of a tool in a web browser; --viewcode=\"LidarInfo\".
--version        Prints the version information.

Example Usage:
>> .*EXE_NAME -r=lidar_info --cd=\"*path*to*data*\" -i=input.las --vlr --geokeys
";

/// The license text.
pub const LICENSE_TEXT: &'static str = "WhiteboxTools License
Copyright 2017-2019 John Lindsay

Permission is hereby granted, free of charge, to any person obtaining a copy of this software and
associated documentation files (the \"Software\"), to deal in the Software without restriction,
including without limitation the rights to use, copy, modify, merge, publish, distribute, sublicense,
and/or sell copies of the Software, and to permit persons to whom the Software is furnished to do so,
subject to the following conditions:

The above copyright notice and this permission notice shall be included in all copies or substantial
portions of the Software.

THE SOFTWARE IS PROVIDED \"AS IS\", WITHOUT WARRANTY OF ANY KIND, EXPRESS OR IMPLIED, INCLUDING BUT
NOT LIMITED TO THE WARRANTIES OF MERCHANTABILITY, FITNESS FOR A PARTICULAR PURPOSE AND
NONINFRINGEMENT. IN NO EVENT SHALL THE AUTHORS OR COPYRIGHT HOLDERS BE LIABLE FOR ANY CLAIM, DAMAGES
OR OTHER LIABILITY, WHETHER IN AN ACTION OF CONTRACT, TORT OR OTHERWISE, ARISING FROM, OUT OF OR IN
CONNECTION WITH THE SOFTWARE OR THE USE OR OTHER DEALINGS IN THE SOFTWARE.";

/// What the version text says before the version.
pub const VERSION_HEAD: &'static str = "WhiteboxTools v";

/// What the version text says behind the version.
pub const VERSION_TAIL: &'static str = " by Dr. John B. Lindsay (c) 2017-2019

WhiteboxTools an advanced geospatial data analysis platform developed at
the University of Guelph's Geomorphometry and Hydrogeomatics Research 
Group (GHRG). See https://www.uoguelph.ca/~hydrogeo/WhiteboxTools/index.html 
for more details.";

/// `s` with every occurrence of `pattern` replaced by `with`. The occurrences are taken from
/// left to right and do not overlap. An empty pattern occurs nowhere.
pub open spec fn replaced(s: Seq<char>, pattern: Seq<char>, with: Seq<char>) -> Seq<char>
    decreases s.len(),
{
    if pattern.len() == 0 || s.len() == 0 {
        s
    } else if pattern.is_prefix_of(s) {
        with + replaced(s.skip(pattern.len() as int), pattern, with)
    } else {
        seq![s[0]] + replaced(s.drop_first(), pattern, with)
    }
}

/// The name of the program file.
pub open spec fn exe_name_spec(windows: bool) -> Seq<char> {
    if windows {
        "whitebox-tools"@ + ".exe"@
    } else {
        "whitebox-tools"@
    }
}

/// The help text for a platform with the path separator `separator`.
pub open spec fn help_text_spec(separator: Seq<char>, windows: bool) -> Seq<char> {
    replaced(replaced(HELP_TEMPLATE@, "*"@, separator), "EXE_NAME"@, exe_name_spec(windows))
}

/// Replaces every occurrence of `pattern` in `s` by `with`.
pub fn replace_all(s: &str, pattern: &str, with: &str) -> (out: String)
    ensures
        out@ == replaced(s@, pattern@, with@),
{
    let chars = chars_of(s);
    let n = chars.len();
    let m = pattern.unicode_len();
    if m == 0 {
        return s.to_owned();
    }
    let mut out = String::new();
    let mut start: usize = 0;
    let mut i: usize = 0;
    proof {
        assert(s@.skip(0) =~= s@);
        assert(out@ + s@.subrange(0, 0) + replaced(s@, pattern@, with@) =~= replaced(
            s@,
            pattern@,
            with@,
        ));
    }
    while i < n
        invariant
            chars@ == s@,
            n == s@.len(),
            m == pattern@.len(),
            m > 0,
            start <= i <= n,
            out@ + s@.subrange(start as int, i as int) + replaced(
                s@.skip(i as int),
                pattern@,
                with@,
            ) == replaced(s@, pattern@, with@),
        decreases n - i,
    {
        let ghost rest = s@.skip(i as int);
        if matches_at(&chars, i, pattern) {
            proof {
                assert(pattern@ =~= rest.subrange(0, m as int));
                assert(rest.skip(m as int) =~= s@.skip(i + m));
            }
            out.append(s.substring_char(start, i));
            out.append(with);
            i = i + m;
            start = i;
            proof {
                assert(s@.subrange(start as int, i as int) =~= Seq::<char>::empty());
                assert(out@ + s@.subrange(start as int, i as int) =~= out@);
            }
        } else {
            proof {
                if pattern@.is_prefix_of(rest) {
                    assert(s@.subrange(i as int, i + m) =~= rest.subrange(0, m as int));
                }
                assert(rest.drop_first() =~= s@.skip(i + 1));
                assert(s@.subrange(start as int, i as int) + seq![rest[0]] =~= s@.subrange(
                    start as int,
                    i + 1,
                ));
                let tail = replaced(s@.skip(i + 1), pattern@, with@);
                assert(out@ + s@.subrange(start as int, i as int) + (seq![rest[0]] + tail) =~= out@
                    + s@.subrange(start as int, i + 1) + tail);
            }
            i = i + 1;
        }
    }
    proof {
        assert(out@ + s@.subrange(start as int, n as int) + Seq::<char>::empty() =~= out@
            + s@.subrange(start as int, n as int));
    }
    out.append(s.substring_char(start, n));
    out
}

/// The name of the program file: on Windows it ends in `.exe`.
pub fn exe_name(windows: bool) -> (name: String)
    ensures
        name@ == exe_name_spec(windows),
{
    let mut name = String::from_str("whitebox-tools");
    if windows {
        name.append(".exe");
    }
    name
}

/// The help text for a platform with the path separator `separator`.
pub fn help_text(separator: &str, windows: bool) -> (text: String)
    ensures
        text@ == help_text_spec(separator@, windows),
{
    let name = exe_name(windows);
    let with_separators = replace_all(HELP_TEMPLATE, "*", separator);
    replace_all(with_separators.as_str(), "EXE_NAME", name.as_str())
}

/// The license text.
pub fn license_text() -> (text: String)
    ensures
        text@ == LICENSE_TEXT@,
{
    String::from_str(LICENSE_TEXT)
}

/// The version text for the version `version`.
pub fn version_text(version: &str) -> (text: String)
    ensures
        text@ == VERSION_HEAD@ + version@ + VERSION_TAIL@,
{
    let mut text = String::from_str(VERSION_HEAD);
    text.append(version);
    text.append(VERSION_TAIL);
    text
}

} // verus!
