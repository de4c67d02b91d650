//! Turning wire responses into text for the client's screen.
//!
//! Sizes and permissions are rendered with exact integer arithmetic;
//! timestamps come from the system's local clock rules and are the one
//! part of a line this module does not pin down.

use vstd::prelude::*;
use vstd::string::{StrSliceExecFns, StringExecFns, StringSliceAdditionalSpecFns};
use crate::proto::{Details, FileInfo, Response, ResponseV};
use crate::text::{spec_dec_chars, spec_digit_char, spec_oct_chars, u64_to_dec_string, u64_to_oct_string};

verus! {

/// What `String::from_utf8_lossy` decodes a byte string to.
pub uninterp spec fn utf8_lossy_of(bytes: Seq<u8>) -> Seq<char>;

/// Relies on `String::from_utf8_lossy`: the text depends on the bytes
/// alone; invalid sequences become replacement characters.
#[verifier::external_body]
fn utf8_lossy(data: &[u8]) -> (r: String)
    ensures
        r@ == utf8_lossy_of(data@),
{
    String::from_utf8_lossy(data).to_string()
}

/// Relies on `chrono::DateTime<chrono::Local>` formatting with
/// `%Y-%m-%d %H:%M:%S`: the text follows the machine's time zone, so only
/// its shape is stated — at least 19 characters — and only for timestamps
/// chrono accepts.
#[verifier::external_body]
fn local_timestamp_text(timestamp: u64) -> (r: Option<String>)
    ensures
        r matches Some(s) ==> s@.len() >= 19,
{
    let secs: i64 = timestamp.try_into().ok()?;
    match chrono::TimeZone::timestamp_opt(&chrono::Local, secs, 0) {
        chrono::LocalResult::Single(dt) => Some(dt.format("%Y-%m-%d %H:%M:%S").to_string()),
        _ => None,
    }
}

/// A timestamp line: the local rendering when chrono accepts the value,
/// a fixed marker otherwise.
fn format_timestamp(timestamp: u64) -> (r: String) {
    match local_timestamp_text(timestamp) {
        Some(s) => s,
        None => String::from_str("out of range"),
    }
}

// ---------------------------------------------------------------------------
// Sizes and permissions
// ---------------------------------------------------------------------------

/// `num / den` rounded to the nearest integer, ties to even.
pub open spec fn spec_round_half_even(num: int, den: int) -> int
    recommends
        den > 0,
{
    let q = num / den;
    let r = num % den;
    if 2 * r > den {
        q + 1
    } else if 2 * r < den {
        q
    } else if q % 2 == 0 {
        q
    } else {
        q + 1
    }
}

/// Hundredths of a byte count scaled by one of the units: the denominator
/// for unit `k` is `1024^k / 100`-fold, kept exact as `2^(10k) / 100`
/// against `bytes * 25 / 2^(10k - 2)`.
pub open spec fn spec_size_hundredths(bytes: u64, den: int) -> int {
    spec_round_half_even(bytes * 25, den)
}

/// Two zero-padded decimal digits.
pub open spec fn spec_two_digits(n: int) -> Seq<char>
    recommends
        0 <= n < 100,
{
    seq![spec_digit_char((n / 10) as nat), spec_digit_char((n % 10) as nat)]
}

/// A scaled size with two decimals and its unit.
pub open spec fn spec_scaled_chars(bytes: u64, den: int, unit: Seq<char>) -> Seq<char> {
    let h = spec_size_hundredths(bytes, den);
    spec_dec_chars((h / 100) as nat) + seq!['.'] + spec_two_digits(h % 100) + unit
}

/// The human-readable size: bytes up to 1023, then KB, MB, GB, TB with
/// two decimals, rounding ties to even as the standard float formatter
/// does.
pub open spec fn spec_size_chars(bytes: u64) -> Seq<char> {
    if bytes == 0 {
        "0 B"@
    } else if bytes < 1024 {
        spec_dec_chars(bytes as nat) + " B"@
    } else if bytes < 0x100000 {
        spec_scaled_chars(bytes, 256, " KB"@)
    } else if bytes < 0x40000000 {
        spec_scaled_chars(bytes, 262144, " MB"@)
    } else if bytes < 0x10000000000 {
        spec_scaled_chars(bytes, 268435456, " GB"@)
    } else {
        spec_scaled_chars(bytes, 274877906944, " TB"@)
    }
}

/// One `rwx` triple of a permission digit.
pub open spec fn spec_perm_triple(bits: int) -> Seq<char> {
    seq![
        if bits / 4 % 2 == 1 {
            'r'
        } else {
            '-'
        },
        if bits / 2 % 2 == 1 {
            'w'
        } else {
            '-'
        },
        if bits % 2 == 1 {
            'x'
        } else {
            '-'
        },
    ]
}

/// The permission text: three `rwx` triples and the octal value.
pub open spec fn spec_perm_chars(perms: u32) -> Seq<char> {
    spec_perm_triple(perms as int / 64 % 8) + spec_perm_triple(perms as int / 8 % 8)
        + spec_perm_triple(perms as int % 8) + " ("@ + spec_oct_chars(perms as nat) + ")"@
}

/// Renders one scaled size: value with two decimals, then the unit.
fn format_scaled(bytes: u64, den: u64, unit: &str) -> (r: String)
    requires
        den == 256 || den == 262144 || den == 268435456 || den == 274877906944,
    ensures
        r@ == spec_scaled_chars(bytes, den as int, unit@),
{
    let num: u128 = bytes as u128 * 25;
    let d: u128 = den as u128;
    let q: u128 = num / d;
    let rem: u128 = num % d;
    let h: u128 = if 2 * rem > d {
        q + 1
    } else if 2 * rem < d {
        q
    } else if q % 2 == 0 {
        q
    } else {
        q + 1
    };
    proof {
        assert(h == spec_size_hundredths(bytes, den as int));
        vstd::arithmetic::div_mod::lemma_div_is_ordered_by_denominator(
            num as int,
            256,
            den as int,
        );
        assert(h <= num / 256 + 1);
    }
    let whole: u64 = (h / 100) as u64;
    let frac: u64 = (h % 100) as u64;
    let mut out = u64_to_dec_string(whole);
    out.append(".");
    let d1: u64 = frac / 10;
    let d2: u64 = frac % 10;
    out.append(digit_ref(d1));
    out.append(digit_ref(d2));
    out.append(unit);
    proof {
        reveal_strlit(".");
        assert(".".view() =~= seq!['.']);
        assert(out@ =~= spec_scaled_chars(bytes, den as int, unit@));
    }
    out
}

/// A single decimal digit as a string slice.
fn digit_ref(d: u64) -> (r: &'static str)
    requires
        d < 10,
    ensures
        r@ == seq![spec_digit_char(d as nat)],
{
    proof {
        reveal_strlit("0");
        reveal_strlit("1");
        reveal_strlit("2");
        reveal_strlit("3");
        reveal_strlit("4");
        reveal_strlit("5");
        reveal_strlit("6");
        reveal_strlit("7");
        reveal_strlit("8");
        reveal_strlit("9");
    }
    let r = if d == 0 {
        "0"
    } else if d == 1 {
        "1"
    } else if d == 2 {
        "2"
    } else if d == 3 {
        "3"
    } else if d == 4 {
        "4"
    } else if d == 5 {
        "5"
    } else if d == 6 {
        "6"
    } else if d == 7 {
        "7"
    } else if d == 8 {
        "8"
    } else {
        "9"
    };
    proof {
        assert(r@ =~= seq![spec_digit_char(d as nat)]);
    }
    r
}

/// The human-readable form of a byte count.
pub fn format_size(bytes: u64) -> (r: String)
    ensures
        r@ == spec_size_chars(bytes),
{
    if bytes == 0 {
        String::from_str("0 B")
    } else if bytes < 1024 {
        let mut out = u64_to_dec_string(bytes);
        out.append(" B");
        out
    } else if bytes < 0x100000 {
        format_scaled(bytes, 256, " KB")
    } else if bytes < 0x40000000 {
        format_scaled(bytes, 262144, " MB")
    } else if bytes < 0x10000000000u64 {
        format_scaled(bytes, 268435456, " GB")
    } else {
        format_scaled(bytes, 274877906944, " TB")
    }
}

/// One `rwx` triple from a permission digit.
fn format_triple(bits: u32) -> (r: String)
    requires
        bits < 8,
    ensures
        r@ == spec_perm_triple(bits as int),
{
    let mut out = String::from_str(if bits / 4 % 2 == 1 {
        "r"
    } else {
        "-"
    });
    out.append(if bits / 2 % 2 == 1 {
        "w"
    } else {
        "-"
    });
    out.append(if bits % 2 == 1 {
        "x"
    } else {
        "-"
    });
    proof {
        reveal_strlit("r");
        reveal_strlit("w");
        reveal_strlit("x");
        reveal_strlit("-");
        assert(out@ =~= spec_perm_triple(bits as int));
    }
    out
}

/// The human-readable form of POSIX mode bits.
pub fn format_permissions(perms: u32) -> (r: String)
    ensures
        r@ == spec_perm_chars(perms),
{
    let mut out = format_triple(perms / 64 % 8);
    out.append(format_triple(perms / 8 % 8).as_str());
    out.append(format_triple(perms % 8).as_str());
    out.append(" (");
    out.append(u64_to_oct_string(perms as u64).as_str());
    out.append(")");
    proof {
        assert(out@ =~= spec_perm_chars(perms));
    }
    out
}

// ---------------------------------------------------------------------------
// Formatted responses
// ---------------------------------------------------------------------------

/// A response rendered for the screen.
pub struct FormattedResponse {
    pub success: bool,
    pub message: String,
    pub details: Option<String>,
    pub current_dir: Option<String>,
}

/// The mathematical value of a `FormattedResponse`.
#[verifier::ext_equal]
pub ghost struct FormattedResponseV {
    pub success: bool,
    pub message: Seq<char>,
    pub details: Option<Seq<char>>,
    pub current_dir: Option<Seq<char>>,
}

impl View for FormattedResponse {
    type V = FormattedResponseV;

    open spec fn view(&self) -> FormattedResponseV {
        FormattedResponseV {
            success: self.success,
            message: self.message@,
            details: match &self.details {
                Option::Some(d) => Option::Some(d@),
                Option::None => Option::None,
            },
            current_dir: match &self.current_dir {
                Option::Some(d) => Option::Some(d@),
                Option::None => Option::None,
            },
        }
    }
}

/// A plain formatted line with no details.
pub open spec fn spec_plain_formatted(success: bool, message: Seq<char>) -> FormattedResponseV {
    FormattedResponseV { success, message, details: None, current_dir: None }
}

/// What the stock formatter produces for each response.  Directory
/// tables and file-info blocks carry free-form detail text (timestamps
/// follow the machine's clock rules), so only their fixed parts are
/// pinned.
pub open spec fn spec_default_formats(resp: ResponseV, out: FormattedResponseV) -> bool {
    if !resp.success {
        out == spec_plain_formatted(false, utf8_lossy_of(resp.error_message))
    } else if resp.rtype == 0 {
        out == spec_plain_formatted(true, "PONG - Server is alive! "@)
    } else if resp.rtype == 1 {
        out == spec_plain_formatted(
            true,
            if resp.data.len() == 0 {
                "Operation successful"@
            } else {
                utf8_lossy_of(resp.data)
            },
        )
    } else if resp.rtype == 2 {
        let dir = if resp.data.len() == 0 {
            "/"@
        } else {
            utf8_lossy_of(resp.data)
        };
        out == FormattedResponseV {
            success: true,
            message: "Changed directory to "@ + dir,
            details: None,
            current_dir: Some(dir),
        }
    } else if resp.rtype == 3 {
        &&& out.success
        &&& out.message == "File content ("@ + spec_dec_chars(resp.data.len()) + " bytes):"@
        &&& out.details is Some
        &&& out.current_dir is None
    } else if resp.rtype == 4 {
        match resp.details {
            Some(crate::proto::DetailsV::FileInfo(_)) => out.success && out.message
                == "File information: "@ && out.details is Some && out.current_dir is None,
            _ => out == spec_plain_formatted(true, "File info received"@),
        }
    } else if resp.rtype == 5 {
        match resp.details {
            Some(crate::proto::DetailsV::DirectoryListing(es)) => {
                if es.len() == 0 {
                    out == spec_plain_formatted(true, "Directory is empty"@)
                } else {
                    out.success && out.message == "Directory listing:"@ && out.details is Some
                        && out.current_dir is None
                }
            },
            _ => out == spec_plain_formatted(true, "Empty directory"@),
        }
    } else if resp.rtype == 7 {
        out == spec_plain_formatted(true, "Server terminated"@)
    } else {
        out == spec_plain_formatted(false, utf8_lossy_of(resp.error_message))
    }
}

/// Renders responses for the screen.
pub trait ResponseFormatter: Sized {
    /// Which renderings this formatter may produce for a response.  The
    /// default claims nothing; a verified formatter overrides it.
    open spec fn formats(&self, resp: ResponseV, out: FormattedResponseV) -> bool {
        true
    }

    fn format_response(&self, response: &Response) -> (r: FormattedResponse)
        ensures
            self.formats(response@, r@),
    ;

    /// The new current directory a successful `ChangeDir` echo carries.
    fn extract_current_dir(&self, response: &Response) -> (r: Option<String>)
        ensures
            match r {
                Some(s) => response.success && response.data@.len() > 0 && s@ == utf8_lossy_of(
                    response.data@,
                ),
                None => !response.success || response.data@.len() == 0,
            },
    {
        if response.success && response.data.len() > 0 {
            Some(utf8_lossy(response.data.as_slice()))
        } else {
            None
        }
    }
}

/// The stock formatter.
#[derive(Clone, Copy, Debug, Default)]
pub struct DefaultResponseFormatter;

impl DefaultResponseFormatter {
    pub fn new() -> (r: DefaultResponseFormatter)
    {
        DefaultResponseFormatter
    }

    fn format_pong(&self) -> (r: FormattedResponse)
        ensures
            r@ == spec_plain_formatted(true, "PONG - Server is alive! "@),
    {
        FormattedResponse {
            success: true,
            message: String::from_str("PONG - Server is alive! "),
            details: None,
            current_dir: None,
        }
    }

    fn format_success(&self, response: &Response) -> (r: FormattedResponse)
        ensures
            r@ == spec_plain_formatted(
                true,
                if response.data@.len() == 0 {
                    "Operation successful"@
                } else {
                    utf8_lossy_of(response.data@)
                },
            ),
    {
        let msg = if response.data.len() == 0 {
            String::from_str("Operation successful")
        } else {
            utf8_lossy(response.data.as_slice())
        };
        FormattedResponse { success: true, message: msg, details: None, current_dir: None }
    }

    fn format_change_dir(&self, response: &Response) -> (r: FormattedResponse)
        ensures
            ({
                let dir = if response.data@.len() == 0 {
                    "/"@
                } else {
                    utf8_lossy_of(response.data@)
                };
                r@ == FormattedResponseV {
                    success: true,
                    message: "Changed directory to "@ + dir,
                    details: None,
                    current_dir: Some(dir),
                }
            }),
    {
        let dir = if response.data.len() == 0 {
            String::from_str("/")
        } else {
            utf8_lossy(response.data.as_slice())
        };
        let mut msg = String::from_str("Changed directory to ");
        msg.append(dir.as_str());
        FormattedResponse { success: true, message: msg, details: None, current_dir: Some(dir) }
    }

    fn format_file_content(&self, response: &Response) -> (r: FormattedResponse)
        ensures
            r@.success,
            r@.message == "File content ("@ + spec_dec_chars(response.data@.len())
                + " bytes):"@,
            r@.details is Some,
            r@.current_dir is None,
    {
        let content = utf8_lossy(response.data.as_slice());
        let n = content.as_str().unicode_len();
        let preview = if n > 500 {
            let mut p = String::from_str("");
            p.append(content.as_str().substring_char(0, 500));
            p.append("...  (");
            p.append(u64_to_dec_string(response.data.len() as u64).as_str());
            p.append(" bytes total)");
            p
        } else {
            content
        };
        let mut msg = String::from_str("File content (");
        msg.append(u64_to_dec_string(response.data.len() as u64).as_str());
        msg.append(" bytes):");
        FormattedResponse {
            success: true,
            message: msg,
            details: Some(preview),
            current_dir: None,
        }
    }

    fn format_file_info_detail(&self, info: &FileInfo) -> (r: FormattedResponse)
        ensures
            r@.success,
            r@.message == "File information: "@,
            r@.details is Some,
            r@.current_dir is None,
    {
        let mut details = utf8_lossy(info.name.as_slice());
        details.append("\nType: ");
        details.append(if info.is_directory {
            "Directory"
        } else {
            "File"
        });
        details.append("\nSize: ");
        if info.is_directory {
            details.append("-");
        } else {
            details.append(format_size(info.size).as_str());
        }
        details.append("\nPermissions: ");
        details.append(format_permissions(info.permissions).as_str());
        details.append("\nModified: ");
        details.append(format_timestamp(info.modified_time).as_str());
        FormattedResponse {
            success: true,
            message: String::from_str("File information: "),
            details: Some(details),
            current_dir: None,
        }
    }

    fn format_file_info(&self, response: &Response) -> (r: FormattedResponse)
        ensures
            match response@.details {
                Some(crate::proto::DetailsV::FileInfo(_)) => r@.success && r@.message
                    == "File information: "@ && r@.details is Some && r@.current_dir is None,
                _ => r@ == spec_plain_formatted(true, "File info received"@),
            },
    {
        match &response.details {
            Some(Details::FileInfo(info)) => self.format_file_info_detail(info),
            _ => FormattedResponse {
                success: true,
                message: String::from_str("File info received"),
                details: None,
                current_dir: None,
            },
        }
    }

    fn format_dir_listing(&self, response: &Response) -> (r: FormattedResponse)
        ensures
            match response@.details {
                Some(crate::proto::DetailsV::DirectoryListing(es)) => {
                    if es.len() == 0 {
                        r@ == spec_plain_formatted(true, "Directory is empty"@)
                    } else {
                        r@.success && r@.message == "Directory listing:"@ && r@.details is Some
                            && r@.current_dir is None
                    }
                },
                _ => r@ == spec_plain_formatted(true, "Empty directory"@),
            },
    {
        match &response.details {
            Some(Details::DirectoryListing(listing)) => {
                if listing.entries.len() == 0 {
                    FormattedResponse {
                        success: true,
                        message: String::from_str("Directory is empty"),
                        details: None,
                        current_dir: None,
                    }
                } else {
                    let mut table = String::from_str("Found ");
                    table.append(u64_to_dec_string(listing.entries.len() as u64).as_str());
                    table.append(" entries:\n\n");
                    let mut i: usize = 0;
                    while i < listing.entries.len()
                        invariant
                            i <= listing.entries@.len(),
                        decreases listing.entries@.len() - i,
                    {
                        let entry = &listing.entries[i];
                        table.append(utf8_lossy(entry.name.as_slice()).as_str());
                        table.append("  ");
                        table.append(if entry.is_directory {
                            "DIR"
                        } else {
                            "FILE"
                        });
                        table.append("  ");
                        if entry.is_directory {
                            table.append("-");
                        } else {
                            table.append(format_size(entry.size).as_str());
                        }
                        table.append("  ");
                        table.append(format_timestamp(entry.modified_time).as_str());
                        table.append("\n");
                        i = i + 1;
                    }
                    FormattedResponse {
                        success: true,
                        message: String::from_str("Directory listing:"),
                        details: Some(table),
                        current_dir: None,
                    }
                }
            },
            _ => FormattedResponse {
                success: true,
                message: String::from_str("Empty directory"),
                details: None,
                current_dir: None,
            },
        }
    }

    fn format_error(&self, response: &Response) -> (r: FormattedResponse)
        ensures
            r@ == spec_plain_formatted(false, utf8_lossy_of(response.error_message@)),
    {
        FormattedResponse {
            success: false,
            message: utf8_lossy(response.error_message.as_slice()),
            details: None,
            current_dir: None,
        }
    }
}

impl ResponseFormatter for DefaultResponseFormatter {
    open spec fn formats(&self, resp: ResponseV, out: FormattedResponseV) -> bool {
        spec_default_formats(resp, out)
    }

    fn format_response(&self, response: &Response) -> (r: FormattedResponse) {
        if !response.success {
            return self.format_error(response);
        }
        if response.rtype == 0 {
            self.format_pong()
        } else if response.rtype == 1 {
            self.format_success(response)
        } else if response.rtype == 2 {
            self.format_change_dir(response)
        } else if response.rtype == 3 {
            self.format_file_content(response)
        } else if response.rtype == 4 {
            self.format_file_info(response)
        } else if response.rtype == 5 {
            self.format_dir_listing(response)
        } else if response.rtype == 7 {
            FormattedResponse {
                success: true,
                message: String::from_str("Server terminated"),
                details: None,
                current_dir: None,
            }
        } else {
            self.format_error(response)
        }
    }
}

/// The client's front door to response rendering.
pub struct ResponseManager<FMT: ResponseFormatter> {
    pub formatter: FMT,
}

impl<FMT: ResponseFormatter> ResponseManager<FMT> {
    pub fn new(formatter: FMT) -> (r: ResponseManager<FMT>)
        ensures
            r.formatter == formatter,
    {
        ResponseManager { formatter }
    }

    pub fn format_response(&self, response: &Response) -> (r: FormattedResponse)
        ensures
            self.formatter.formats(response@, r@),
    {
        self.formatter.format_response(response)
    }
}

impl Default for ResponseManager<DefaultResponseFormatter> {
    /// The stock formatter.
    fn default() -> (r: ResponseManager<DefaultResponseFormatter>)
        ensures
            r.formatter == DefaultResponseFormatter,
    {
        ResponseManager { formatter: DefaultResponseFormatter }
    }
}

} // verus!
