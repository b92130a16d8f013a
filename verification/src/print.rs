//! Print settings and page ranges, including the parser for the page
//! ranges a user types.
//!
//! Page ranges are inclusive and zero-based inside the program; the
//! text form a user types is one-based. Lengths are in tenths of a
//! millimetre. Driving an actual printer is platform work and stays
//! outside this crate; the `Printer` trait is what such a platform
//! layer implements.

use vstd::prelude::*;
use vstd::string::StrSliceExecFns;
use vstd::string::StringExecFns;

verus! {

/// What can go wrong around printing.
#[derive(Debug)]
pub enum PrintError {
    /// The printer could not be initialized.
    InitError(String),
    /// The print job failed.
    PrintError(String),
    /// No printer is available.
    NoPrinter,
    /// The page-range text is not a valid range; carries the offending
    /// text.
    InvalidPageRange(String),
    /// The platform cannot do this.
    PlatformError(String),
}

/// An inclusive, zero-based page range.
#[derive(Debug, Clone)]
pub struct PageRange {
    /// First page of the range.
    pub start: usize,
    /// Last page of the range, inclusive.
    pub end: usize,
}

impl PageRange {
    /// The range covering a whole document; for an empty document it
    /// degenerates to the single page zero.
    pub fn all(page_count: usize) -> (r: PageRange)
        ensures
            r.start == 0,
            r.end == if page_count == 0 {
                0usize
            } else {
                (page_count - 1) as usize
            },
    {
        PageRange { start: 0, end: if page_count == 0 { 0 } else { page_count - 1 } }
    }

    /// The range holding one page.
    pub fn single(page: usize) -> (r: PageRange)
        ensures
            r.start == page,
            r.end == page,
    {
        PageRange { start: page, end: page }
    }

    /// The range from `start` to `end`, both inclusive.
    pub fn range(start: usize, end: usize) -> (r: PageRange)
        ensures
            r.start == start,
            r.end == end,
    {
        PageRange { start, end }
    }

    /// Whether the page lies inside the range.
    pub fn contains(&self, page: usize) -> (r: bool)
        ensures
            r == (self.start <= page && page <= self.end),
    {
        page >= self.start && page <= self.end
    }

    /// How many pages the range covers; an inverted range counts as
    /// one.
    pub fn page_count(&self) -> (r: usize)
        requires
            self.start > 0 || self.end < usize::MAX,
        ensures
            r == if self.end >= self.start {
                self.end - self.start + 1
            } else {
                1int
            },
    {
        let diff = if self.end >= self.start {
            self.end - self.start
        } else {
            0
        };
        diff + 1
    }
}

/// A whitespace character as the range parser strips it.
pub open spec fn spec_is_space(c: char) -> bool {
    c == ' ' || c == '\t' || c == '\n' || c == '\r'
}

/// `s` without its leading whitespace.
pub open spec fn spec_trim_front(s: Seq<char>) -> Seq<char>
    decreases s.len(),
{
    if s.len() > 0 && spec_is_space(s[0]) {
        spec_trim_front(s.drop_first())
    } else {
        s
    }
}

/// `s` without its trailing whitespace.
pub open spec fn spec_trim_back(s: Seq<char>) -> Seq<char>
    decreases s.len(),
{
    if s.len() > 0 && spec_is_space(s.last()) {
        spec_trim_back(s.drop_last())
    } else {
        s
    }
}

/// `s` without leading and trailing whitespace.
pub open spec fn spec_trim(s: Seq<char>) -> Seq<char> {
    spec_trim_back(spec_trim_front(s))
}

/// When everything before `a` is whitespace and `a` is the end or a
/// non-space, trimming the front keeps exactly the suffix from `a`.
proof fn lemma_trim_front_at(s: Seq<char>, a: int)
    requires
        0 <= a <= s.len(),
        forall|k: int| 0 <= k < a ==> spec_is_space(#[trigger] s[k]),
        a == s.len() || !spec_is_space(s[a]),
    ensures
        spec_trim_front(s) == s.subrange(a, s.len() as int),
    decreases a,
{
    if a == 0 {
        if s.len() > 0 && spec_is_space(s[0]) {
            assert(false);
        }
        assert(spec_trim_front(s) =~= s.subrange(0, s.len() as int));
    } else {
        let q = s.drop_first();
        assert(forall|k: int| 0 <= k < a - 1 ==> spec_is_space(#[trigger] q[k]));
        lemma_trim_front_at(q, a - 1);
        assert(q.subrange(a - 1, q.len() as int) =~= s.subrange(a, s.len() as int));
    }
}

/// When everything from `b` on is whitespace and `b` is the start or
/// follows a non-space, trimming the back keeps exactly the prefix up
/// to `b`.
proof fn lemma_trim_back_at(s: Seq<char>, b: int)
    requires
        0 <= b <= s.len(),
        forall|k: int| b <= k < s.len() ==> spec_is_space(#[trigger] s[k]),
        b == 0 || !spec_is_space(s[b - 1]),
    ensures
        spec_trim_back(s) == s.subrange(0, b),
    decreases s.len(),
{
    if b == s.len() {
        if s.len() > 0 && spec_is_space(s.last()) {
            assert(false);
        }
        assert(spec_trim_back(s) =~= s.subrange(0, b));
    } else {
        let q = s.drop_last();
        assert(forall|k: int| b <= k < q.len() ==> spec_is_space(#[trigger] q[k]));
        lemma_trim_back_at(q, b);
        assert(q.subrange(0, b) =~= s.subrange(0, b));
    }
}

/// The word `all` in any letter case.
pub open spec fn spec_is_all_keyword(t: Seq<char>) -> bool {
    &&& t.len() == 3
    &&& (t[0] == 'a' || t[0] == 'A')
    &&& (t[1] == 'l' || t[1] == 'L')
    &&& (t[2] == 'l' || t[2] == 'L')
}

/// A decimal digit.
pub open spec fn spec_is_digit(c: char) -> bool {
    '0' <= c && c <= '9'
}

/// Every character of `s` is a decimal digit.
pub open spec fn spec_all_digits(s: Seq<char>) -> bool {
    forall|k: int| 0 <= k < s.len() ==> spec_is_digit(#[trigger] s[k])
}

/// The number the digits of `s` spell, most significant first.
pub open spec fn spec_digits_val(s: Seq<char>) -> int
    decreases s.len(),
{
    if s.len() == 0 {
        0
    } else {
        spec_digits_val(s.drop_last()) * 10 + (s.last() as int - 48)
    }
}

/// `s` with one leading plus sign dropped: the part that must be
/// digits.
pub open spec fn spec_digits_part(s: Seq<char>) -> Seq<char> {
    if s.len() > 0 && s[0] == '+' {
        s.drop_first()
    } else {
        s
    }
}

/// What parsing `s` as a whole number yields: its value when `s` is an
/// optional leading plus sign followed by nothing but digits, nothing
/// otherwise.
pub open spec fn spec_parse_number(s: Seq<char>) -> Option<int> {
    let d = spec_digits_part(s);
    if d.len() == 0 || !spec_all_digits(d) {
        None
    } else {
        Some(spec_digits_val(d))
    }
}

/// A digit string's value never shrinks as digits are appended.
proof fn lemma_digits_val_monotone(s: Seq<char>, i: int)
    requires
        spec_all_digits(s),
        0 <= i <= s.len(),
    ensures
        0 <= spec_digits_val(s.subrange(0, i)),
        spec_digits_val(s.subrange(0, i)) <= spec_digits_val(s),
    decreases s.len() - i,
{
    if i == s.len() {
        assert(s.subrange(0, i) =~= s);
        lemma_digits_val_nonneg(s);
    } else {
        lemma_digits_val_monotone(s, i + 1);
        let p = s.subrange(0, i);
        let p2 = s.subrange(0, i + 1);
        assert(p2.drop_last() =~= p);
        assert(spec_all_digits(p));
        lemma_digits_val_nonneg(p);
        assert(p2.last() as int - 48 >= 0);
        assert(spec_digits_val(p2) == spec_digits_val(p) * 10 + (p2.last() as int - 48));
    }
}

/// The value of a digit string is never negative.
proof fn lemma_digits_val_nonneg(s: Seq<char>)
    requires
        spec_all_digits(s),
    ensures
        spec_digits_val(s) >= 0,
    decreases s.len(),
{
    if s.len() > 0 {
        let q = s.drop_last();
        assert(spec_all_digits(q));
        lemma_digits_val_nonneg(q);
    }
}

/// Parses a whole number with an optional leading plus sign, rejecting
/// anything else and values that do not fit the machine.
fn parse_page_number(s: &str) -> (r: Option<usize>)
    ensures
        spec_parse_number(s@) is None ==> r is None,
        spec_parse_number(s@) matches Some(v) ==> 0 <= v && if v <= usize::MAX {
            r == Some(v as usize)
        } else {
            r is None
        },
{
    let len = s.unicode_len();
    let start: usize = if len > 0 && s.get_char(0) == '+' {
        1
    } else {
        0
    };
    let ghost d = spec_digits_part(s@);
    proof {
        assert(d =~= s@.subrange(start as int, len as int));
        if spec_all_digits(d) {
            lemma_digits_val_nonneg(d);
        }
    }
    if len == start {
        return None;
    }
    let mut acc: u128 = 0;
    let mut i: usize = start;
    while i < len
        invariant
            start <= i <= len,
            start <= 1,
            len == s@.len(),
            d == spec_digits_part(s@),
            d == s@.subrange(start as int, len as int),
            spec_all_digits(d.subrange(0, i - start)),
            acc as int == spec_digits_val(d.subrange(0, i - start)),
            acc <= usize::MAX as u128,
        decreases len - i,
    {
        let c = s.get_char(i);
        if !(c >= '0' && c <= '9') {
            proof {
                assert(d[i - start] == s@[i as int]);
            }
            return None;
        }
        let digit: u128 = (c as u32 - 48) as u128;
        let ghost p = d.subrange(0, i - start);
        let ghost p2 = d.subrange(0, i + 1 - start);
        proof {
            assert(p2.drop_last() =~= p);
            assert(p2.last() == d[i - start]);
            assert(d[i - start] == s@[i as int]);
        }
        acc = acc * 10 + digit;
        i = i + 1;
        if acc > usize::MAX as u128 {
            proof {
                if spec_all_digits(d) {
                    assert(d.subrange(0, i - start) =~= p2);
                    lemma_digits_val_monotone(d, i - start);
                    assert(spec_digits_val(d) > usize::MAX);
                }
            }
            return None;
        }
    }
    proof {
        assert(d.subrange(0, len - start) =~= d);
    }
    Some(acc as usize)
}

/// Index of the first `-` in `t`, when one occurs.
pub open spec fn spec_find_dash(t: Seq<char>) -> Option<int>
    decreases t.len(),
{
    if t.len() == 0 {
        None
    } else if t[0] == '-' {
        Some(0)
    } else {
        match spec_find_dash(t.drop_first()) {
            Some(k) => Some(k + 1),
            None => None,
        }
    }
}

/// When nothing before `k` is a dash and `t[k]` is one, the first dash
/// is at `k`; when there is no dash at all, there is none to find.
proof fn lemma_find_dash_at(t: Seq<char>, k: int)
    requires
        0 <= k <= t.len(),
        forall|m: int| 0 <= m < k ==> (#[trigger] t[m]) != '-',
        k == t.len() || t[k] == '-',
    ensures
        k < t.len() ==> spec_find_dash(t) == Some(k),
        k == t.len() ==> spec_find_dash(t) is None,
    decreases k,
{
    if t.len() == 0 {
    } else if k == 0 {
    } else {
        let q = t.drop_first();
        assert(forall|m: int| 0 <= m < k - 1 ==> (#[trigger] q[m]) != '-');
        lemma_find_dash_at(q, k - 1);
        assert(t[0] != '-');
    }
}

/// What validating a page-range text yields: the zero-based inclusive
/// range, or nothing when the text does not name a range of the
/// document. After trimming whitespace: an empty text or the word
/// `all` is the whole document; `a-b` is the one-based run from `a` to
/// `b`, each side trimmed on its own, good when both parse, neither is
/// zero, they are ordered and `b` is within the document; a single
/// number is that one-based page, good when it parses, is not zero and
/// is within the document.
pub open spec fn spec_validate_page_range(s: Seq<char>, max_pages: int) -> Option<(int, int)> {
    let t = spec_trim(s);
    if t.len() == 0 || spec_is_all_keyword(t) {
        Some((0, if max_pages == 0 { 0 } else { max_pages - 1 }))
    } else {
        match spec_find_dash(t) {
            Some(k) => {
                let left = spec_parse_number(spec_trim(t.subrange(0, k)));
                let right = spec_parse_number(spec_trim(t.subrange(k + 1, t.len() as int)));
                if left is Some && right is Some {
                    let a = left->Some_0;
                    let b = right->Some_0;
                    if a == 0 || b == 0 || a > b || b > max_pages {
                        None
                    } else {
                        Some((a - 1, b - 1))
                    }
                } else {
                    None
                }
            },
            None => {
                match spec_parse_number(t) {
                    Some(p) => if p == 0 || p > max_pages {
                        None
                    } else {
                        Some((p - 1, p - 1))
                    },
                    None => None,
                }
            },
        }
    }
}

/// Index of the first non-whitespace character, or the length when the
/// text is all whitespace.
fn trim_start_index(s: &str) -> (a: usize)
    ensures
        a <= s@.len(),
        forall|k: int| 0 <= k < a ==> spec_is_space(#[trigger] s@[k]),
        a == s@.len() || !spec_is_space(s@[a as int]),
{
    let len = s.unicode_len();
    let mut a: usize = 0;
    while a < len
        invariant
            0 <= a <= len,
            len == s@.len(),
            forall|k: int| 0 <= k < a ==> spec_is_space(#[trigger] s@[k]),
        decreases len - a,
    {
        let c = s.get_char(a);
        if !(c == ' ' || c == '\t' || c == '\n' || c == '\r') {
            return a;
        }
        a = a + 1;
    }
    a
}

/// Index just past the last non-whitespace character at or after `a`,
/// or `a` when everything after it is whitespace.
fn trim_end_index(s: &str, a: usize) -> (b: usize)
    requires
        a <= s@.len(),
    ensures
        a <= b <= s@.len(),
        forall|k: int| b <= k < s@.len() ==> spec_is_space(#[trigger] s@[k]),
        b == a || !spec_is_space(s@[b - 1]),
{
    let len = s.unicode_len();
    let mut b: usize = len;
    while b > a
        invariant
            a <= b <= len,
            len == s@.len(),
            forall|k: int| b <= k < len ==> spec_is_space(#[trigger] s@[k]),
        decreases b,
    {
        let c = s.get_char(b - 1);
        if !(c == ' ' || c == '\t' || c == '\n' || c == '\r') {
            return b;
        }
        b = b - 1;
    }
    b
}

/// Position of the first dash, when the text has one.
fn find_dash(t: &str) -> (r: Option<usize>)
    ensures
        r matches Some(k) ==> k < t@.len() && spec_find_dash(t@) == Some(k as int),
        r is None ==> spec_find_dash(t@) is None,
{
    let len = t.unicode_len();
    let mut i: usize = 0;
    while i < len
        invariant
            0 <= i <= len,
            len == t@.len(),
            forall|k: int| 0 <= k < i ==> (#[trigger] t@[k]) != '-',
        decreases len - i,
    {
        if t.get_char(i) == '-' {
            proof {
                lemma_find_dash_at(t@, i as int);
            }
            return Some(i);
        }
        i = i + 1;
    }
    proof {
        lemma_find_dash_at(t@, len as int);
    }
    None
}

/// `s` without leading and trailing whitespace.
fn trimmed(s: &str) -> (r: &str)
    ensures
        r@ == spec_trim(s@),
{
    let a = trim_start_index(s);
    let b = trim_end_index(s, a);
    proof {
        lemma_trim_front_at(s@, a as int);
        let suf = s@.subrange(a as int, s@.len() as int);
        assert(forall|k: int| b - a <= k < suf.len() ==> spec_is_space(#[trigger] suf[k]));
        if b > a {
            assert(suf[b - a - 1] == s@[b - 1]);
        }
        lemma_trim_back_at(suf, b - a);
        assert(spec_trim(s@) =~= s@.subrange(a as int, b as int));
    }
    s.substring_char(a, b)
}

/// Checks a page-range text against a document of `max_pages` pages;
/// a rejected text comes back as an invalid-range error carrying the
/// trimmed text.
pub fn validate_page_range(range_str: &str, max_pages: usize) -> (r: Result<
    PageRange,
    PrintError,
>)
    ensures
        r is Ok <==> spec_validate_page_range(range_str@, max_pages as int) is Some,
        r matches Ok(pr) ==> spec_validate_page_range(range_str@, max_pages as int) == Some(
            ((pr.start as int), (pr.end as int)),
        ),
        r matches Err(e) ==> (e matches PrintError::InvalidPageRange(m) && m@ == spec_trim(
            range_str@,
        )),
{
    let t = trimmed(range_str);
    let tlen = t.unicode_len();
    let is_all = tlen == 3 && {
        let c0 = t.get_char(0);
        let c1 = t.get_char(1);
        let c2 = t.get_char(2);
        (c0 == 'a' || c0 == 'A') && (c1 == 'l' || c1 == 'L') && (c2 == 'l' || c2 == 'L')
    };
    if tlen == 0 || is_all {
        return Ok(PageRange::all(max_pages));
    }
    let found = find_dash(t);
    let dash = match found {
        Some(k) => k,
        None => tlen,
    };
    if dash < tlen {
        let left = trimmed(t.substring_char(0, dash));
        let right = trimmed(t.substring_char(dash + 1, tlen));
        let start = parse_page_number(left);
        let end = parse_page_number(right);
        match (start, end) {
            (Some(s0), Some(e0)) => {
                if s0 == 0 || e0 == 0 || s0 > e0 || e0 > max_pages {
                    Err(PrintError::InvalidPageRange(String::from_str(t)))
                } else {
                    Ok(PageRange::range(s0 - 1, e0 - 1))
                }
            },
            _ => Err(PrintError::InvalidPageRange(String::from_str(t))),
        }
    } else {
        let page = parse_page_number(t);
        match page {
            Some(p) => {
                if p == 0 || p > max_pages {
                    Err(PrintError::InvalidPageRange(String::from_str(t)))
                } else {
                    Ok(PageRange::single(p - 1))
                }
            },
            None => Err(PrintError::InvalidPageRange(String::from_str(t))),
        }
    }
}

/// The paper sizes the settings can name.
#[derive(Debug, Clone, Copy, PartialEq, Eq, Structural)]
pub enum PaperSize {
    A4,
    A3,
    A5,
    Letter,
    Legal,
    Tabloid,
}

impl PaperSize {
    /// The sheet dimensions in tenths of a millimetre, width first.
    pub fn dimensions_mm(&self) -> (r: (u32, u32))
        ensures
            r == self.spec_dimensions_mm(),
    {
        match self {
            PaperSize::A4 => (2100, 2970),
            PaperSize::A3 => (2970, 4200),
            PaperSize::A5 => (1480, 2100),
            PaperSize::Letter => (2159, 2794),
            PaperSize::Legal => (2159, 3556),
            PaperSize::Tabloid => (2794, 4318),
        }
    }

    /// The sheet dimensions in tenths of a millimetre, width first.
    pub open spec fn spec_dimensions_mm(self) -> (u32, u32) {
        match self {
            PaperSize::A4 => (2100u32, 2970u32),
            PaperSize::A3 => (2970u32, 4200u32),
            PaperSize::A5 => (1480u32, 2100u32),
            PaperSize::Letter => (2159u32, 2794u32),
            PaperSize::Legal => (2159u32, 3556u32),
            PaperSize::Tabloid => (2794u32, 4318u32),
        }
    }
}

/// Portrait or landscape.
#[derive(Debug, Clone, Copy, PartialEq, Eq, Structural)]
pub enum Orientation {
    Portrait,
    Landscape,
}

/// Page margins in tenths of a millimetre.
#[derive(Debug, Clone, Copy, PartialEq, Eq, Structural)]
pub struct Margins {
    pub top: u32,
    pub bottom: u32,
    pub left: u32,
    pub right: u32,
}

impl Margins {
    /// Margins given side by side.
    pub fn new(top: u32, bottom: u32, left: u32, right: u32) -> (r: Margins)
        ensures
            r == (Margins { top, bottom, left, right }),
    {
        Margins { top, bottom, left, right }
    }

    /// The same margin on every side.
    pub fn all(margin: u32) -> (r: Margins)
        ensures
            r == (Margins { top: margin, bottom: margin, left: margin, right: margin }),
    {
        Margins { top: margin, bottom: margin, left: margin, right: margin }
    }
}

impl Default for Margins {
    /// One millimetre short of nothing: ten tenths on every side.
    fn default() -> (r: Margins)
        ensures
            r == (Margins { top: 100u32, bottom: 100u32, left: 100u32, right: 100u32 }),
    {
        Margins { top: 100, bottom: 100, left: 100, right: 100 }
    }
}

/// Everything a print job is configured with.
#[derive(Debug, Clone)]
pub struct PrintSettings {
    pub paper_size: PaperSize,
    pub orientation: Orientation,
    /// Pages to print; the whole document when absent.
    pub page_range: Option<PageRange>,
    pub copies: u32,
    pub duplex: bool,
    pub color: bool,
    pub scale_to_fit: bool,
    pub margins: Margins,
}

/// The settings a job starts from: one colour copy of the whole
/// document on portrait A4, scaled to fit, single-sided.
pub open spec fn spec_default_settings(s: PrintSettings) -> bool {
    &&& s.paper_size == PaperSize::A4
    &&& s.orientation == Orientation::Portrait
    &&& s.page_range is None
    &&& s.copies == 1
    &&& s.duplex == false
    &&& s.color == true
    &&& s.scale_to_fit == true
    &&& s.margins == (Margins { top: 100u32, bottom: 100u32, left: 100u32, right: 100u32 })
}

impl Default for PrintSettings {
    /// The default job configuration.
    fn default() -> (r: PrintSettings)
        ensures
            spec_default_settings(r),
    {
        PrintSettings {
            paper_size: PaperSize::A4,
            orientation: Orientation::Portrait,
            page_range: None,
            copies: 1,
            duplex: false,
            color: true,
            scale_to_fit: true,
            margins: Margins::default(),
        }
    }
}

/// The default job configuration.
pub fn get_default_settings() -> (r: PrintSettings)
    ensures
        spec_default_settings(r),
{
    PrintSettings::default()
}

/// One printer as the platform reports it.
#[derive(Debug, Clone)]
pub struct PrinterInfo {
    pub name: String,
    pub is_default: bool,
    pub supports_color: bool,
    pub supports_duplex: bool,
}

/// What a platform's print layer offers. Platforms implement this
/// outside the session core; the stub below is the implementation for
/// platforms without one.
pub trait Printer {
    /// The printers the platform knows of.
    fn get_printers() -> Result<Vec<PrinterInfo>, PrintError>;

    /// Prints the document at `pdf_path` with the given settings on the
    /// named printer, or the default one.
    fn print_pdf(pdf_path: &str, settings: &PrintSettings, printer_name: Option<&str>) -> Result<
        (),
        PrintError,
    >;

    /// Shows the platform's print dialog for the document.
    fn show_print_dialog(pdf_path: &str) -> Result<(), PrintError>;

    /// Shows the platform's print preview for the document.
    fn show_print_preview(pdf_path: &str) -> Result<(), PrintError>;
}

/// The print layer of a platform without printing: every operation
/// reports that the platform cannot do it.
pub struct StubPrinter;

impl Printer for StubPrinter {
    fn get_printers() -> Result<Vec<PrinterInfo>, PrintError> {
        Err(PrintError::PlatformError(String::from_str("Printing not supported on this platform")))
    }

    fn print_pdf(_pdf_path: &str, _settings: &PrintSettings, _printer_name: Option<&str>) -> Result<
        (),
        PrintError,
    > {
        Err(PrintError::PlatformError(String::from_str("Printing not supported on this platform")))
    }

    fn show_print_dialog(_pdf_path: &str) -> Result<(), PrintError> {
        Err(PrintError::PlatformError(String::from_str("Printing not supported on this platform")))
    }

    fn show_print_preview(_pdf_path: &str) -> Result<(), PrintError> {
        Err(
            PrintError::PlatformError(
                String::from_str("Print preview not supported on this platform"),
            ),
        )
    }
}

} // verus!
