//! The logic of the command-line test driver and of the example program:
//! how the `sqlexec` arguments are split, how the driver's command-line
//! description is built, and how wide the example prints a column.
use vstd::prelude::*;
use vstd::utf8::encode_utf8;

verus! {

// ---------------------------------------------------------------- sqlexec

/// The message when `sqlexec` is given too few arguments.
pub open spec fn too_few_args_message() -> Seq<char> {
    "need dbfile sqls..."@
}

/// Splits the `sqlexec` arguments into the database file and the
/// statements to run on it, in order: a database file and at least one
/// statement are needed.
pub fn sqlexec_plan(args: &Vec<String>) -> (r: Result<(String, Vec<String>), String>)
    ensures
        r is Err <==> args@.len() < 2,
        r matches Err(m) ==> m@ == too_few_args_message(),
        r matches Ok((db, sqls)) ==> {
            &&& db@ == args@[0]@
            &&& sqls@.len() + 1 == args@.len()
            &&& forall|i: int| 0 <= i < sqls@.len() ==> (#[trigger] sqls@[i])@ == args@[i + 1]@
        },
{
    let n: usize = args.len();
    if n < 2 {
        return Err("need dbfile sqls...".to_owned());
    }
    let db: String = args[0].clone();
    let mut sqls: Vec<String> = Vec::new();
    let mut i: usize = 1;
    while i < n
        invariant
            n == args@.len(),
            1 <= i <= n,
            sqls@.len() + 1 == i,
            forall|j: int| 0 <= j < sqls@.len() ==> (#[trigger] sqls@[j])@ == args@[j + 1]@,
        decreases n - i,
    {
        sqls.push(args[i].clone());
        i = i + 1;
    }
    Ok((db, sqls))
}

// ---------------------------------------------------------------- command line

/// The command-line description of the test driver, with the library path
/// `dll` (already escaped) as the default of `--sqldll`.
pub open spec fn sqlexec_commandline(dll: Seq<char>) -> Seq<char> {
    "{\n\t\t\"sqldll\" : \""@ + dll
        + "\"\n\t\t\"sqlexec<sqlexec_handler>##dbfile sqlstr ... to execute sql##\" : {\n\t\t\t\"$\" : \"+\"\n\t\t}\n\t}"@
}

/// Builds the command-line description of the test driver around the
/// escaped library path `dll`.
pub fn commandline_for(dll: &str) -> (c: String)
    ensures
        c@ == sqlexec_commandline(dll@),
{
    let mut c: String = "{\n\t\t\"sqldll\" : \"".to_owned();
    c.append(dll);
    c.append(
        "\"\n\t\t\"sqlexec<sqlexec_handler>##dbfile sqlstr ... to execute sql##\" : {\n\t\t\t\"$\" : \"+\"\n\t\t}\n\t}",
    );
    c
}

#[verifier::external_type_specification]
#[verifier::external_body]
pub struct ExRegexError(regex::Error);

/// Whether `regex::Regex::new` accepts the pattern (its syntax, and the
/// default size limits).
pub uninterp spec fn regex_compiles(pattern: Seq<char>) -> bool;

/// What `regex::Regex::replace_all` gives when every match of the regex
/// compiled from `pattern` in `haystack` is replaced by `rep`.
pub uninterp spec fn regex_replaced(pattern: Seq<char>, haystack: Seq<char>, rep: Seq<char>) -> Seq<char>;

/// `regex::Regex::replace_all` on the regex that `regex::Regex::new`
/// compiles from `pattern`: the compile succeeds exactly when the pattern is
/// accepted, and then the text is `haystack` with every match replaced by
/// `rep`; both depend on the arguments alone.
#[verifier::external_body]
fn regex_replace_all_in(pattern: &str, haystack: &str, rep: &str) -> (res: Result<String, regex::Error>)
    ensures
        res is Ok <==> regex_compiles(pattern@),
        res matches Ok(s) ==> s@ == regex_replaced(pattern@, haystack@, rep@),
{
    match regex::Regex::new(pattern) {
        Ok(re) => Ok(re.replace_all(haystack, rep).into_owned()),
        Err(e) => Err(e),
    }
}

/// The default library path of the test driver, `.\sqlite3.dll`.
pub open spec fn default_sqldll() -> Seq<char> {
    ".\\sqlite3.dll"@
}

/// The pattern that matches one backslash.
pub open spec fn backslash_pattern() -> Seq<char> {
    "\\\\"@
}

/// Builds the test driver's command-line description: the default library
/// path with each backslash doubled by a regex replacement, in the
/// template; fails only when the backslash pattern does not compile.
pub fn sqlexec_config() -> (r: Result<String, regex::Error>)
    ensures
        r is Err <==> !regex_compiles(backslash_pattern()),
        r matches Ok(c) ==> c@ == sqlexec_commandline(
            regex_replaced(backslash_pattern(), default_sqldll(), backslash_pattern()),
        ),
{
    let sqldll: String = match regex_replace_all_in("\\\\", ".\\sqlite3.dll", "\\\\") {
        Ok(s) => s,
        Err(e) => {
            return Err(e);
        },
    };
    let c: String = commandline_for(sqldll.as_str());
    Ok(c)
}

// ---------------------------------------------------------------- example

/// The number of bytes of a text, as `str::len` counts them.
pub open spec fn byte_len(s: String) -> nat {
    encode_utf8(s@).len()
}

/// Whether every text of `texts` is shorter than `w` bytes.
pub open spec fn all_shorter(texts: Seq<String>, w: int) -> bool {
    forall|i: int| 0 <= i < texts.len() ==> byte_len(#[trigger] texts[i]) < w
}

/// Whether some text of `texts` is exactly `w - 1` bytes long.
pub open spec fn one_reaches(texts: Seq<String>, w: int) -> bool {
    exists|i: int| 0 <= i < texts.len() && byte_len(#[trigger] texts[i]) + 1 == w
}

fn widen(texts: &Vec<String>, width: usize) -> (w: usize)
    requires
        width >= 1,
        forall|i: int| 0 <= i < texts@.len() ==> byte_len(#[trigger] texts@[i]) < usize::MAX,
    ensures
        w >= width,
        all_shorter(texts@, w as int),
        w == width || one_reaches(texts@, w as int),
{
    let mut w: usize = width;
    let n: usize = texts.len();
    let mut i: usize = 0;
    while i < n
        invariant
            n == texts@.len(),
            i <= n,
            w >= width,
            width >= 1,
            forall|j: int| 0 <= j < texts@.len() ==> byte_len(#[trigger] texts@[j]) < usize::MAX,
            forall|j: int| 0 <= j < i ==> byte_len(#[trigger] texts@[j]) < w,
            w == width || exists|j: int| 0 <= j < i && byte_len(#[trigger] texts@[j]) + 1 == w,
        decreases n - i,
    {
        let l: usize = texts[i].as_str().len();
        assert(l == byte_len(texts@[i as int]));
        if l >= w {
            w = l + 1;
        }
        i = i + 1;
    }
    w
}

/// The column width of the example program: one more than the longest
/// value or column name, in bytes, and at least 1.
pub fn column_width(vals: &Vec<String>, cols: &Vec<String>) -> (w: usize)
    requires
        forall|i: int| 0 <= i < vals@.len() ==> byte_len(#[trigger] vals@[i]) < usize::MAX,
        forall|i: int| 0 <= i < cols@.len() ==> byte_len(#[trigger] cols@[i]) < usize::MAX,
    ensures
        w >= 1,
        all_shorter(vals@, w as int),
        all_shorter(cols@, w as int),
        w == 1 || one_reaches(vals@, w as int) || one_reaches(cols@, w as int),
{
    let w1: usize = widen(vals, 1);
    let w2: usize = widen(cols, w1);
    w2
}

} // verus!
