use vstd::prelude::*;

verus! {

/// The character of a decimal digit.
pub open spec fn digit_char(d: nat) -> char {
    if d == 0 { '0' }
    else if d == 1 { '1' }
    else if d == 2 { '2' }
    else if d == 3 { '3' }
    else if d == 4 { '4' }
    else if d == 5 { '5' }
    else if d == 6 { '6' }
    else if d == 7 { '7' }
    else if d == 8 { '8' }
    else { '9' }
}

/// The decimal notation of `n`, without leading zeros.
pub open spec fn decimal(n: nat) -> Seq<char>
    decreases n,
{
    if n < 10 {
        seq![digit_char(n)]
    } else {
        decimal(n / 10) + seq![digit_char(n % 10)]
    }
}

/// "file" for one, "files" for any other count.
pub open spec fn files_word(n: nat) -> Seq<char> {
    if n == 1 {
        "file"@
    } else {
        "files"@
    }
}

/// The message that closes a batch of `total` jobs.
pub open spec fn summary_text(total: nat, successful: nat, failed: nat) -> Seq<char> {
    if failed == 0 {
        "Successfully processed "@ + decimal(successful) + " "@ + files_word(successful)
    } else if successful == 0 {
        "Failed to process "@ + decimal(failed) + " "@ + files_word(failed)
    } else {
        "Processed "@ + decimal(total) + " "@ + files_word(total) + ": "@ + decimal(successful)
            + " successful, "@ + decimal(failed) + " failed"@
    }
}

/// The message shown while job `done + 1` of `total` is under way.
pub open spec fn progress_text(done: nat, total: nat) -> Seq<char> {
    "Processing "@ + decimal(done + 1) + " of "@ + decimal(total) + " files..."@
}

/// The hint shown while `n` files are dragged over the window.
pub open spec fn drop_hint_text(n: nat) -> Seq<char> {
    if n == 1 {
        "Drop to shuffle PDF"@
    } else {
        "Drop to shuffle "@ + decimal(n) + " PDFs"@
    }
}

fn digit_str(d: usize) -> (r: &'static str)
    requires
        d < 10,
    ensures
        r@ == seq![digit_char(d as nat)],
{
    proof {
        reveal_strlit("0");
        reveal_strlit("1");
        reveal_strlit("2");
        reveal_strlit("3");
        reveal_strlit("4");
        reveal_strlit("5");
        reveal_strlit("6");
        reveal_strlit("7");
        reveal_strlit("8");
        reveal_strlit("9");
    }
    let r = if d == 0 { "0" }
    else if d == 1 { "1" }
    else if d == 2 { "2" }
    else if d == 3 { "3" }
    else if d == 4 { "4" }
    else if d == 5 { "5" }
    else if d == 6 { "6" }
    else if d == 7 { "7" }
    else if d == 8 { "8" }
    else { "9" };
    assert(r@ =~= seq![digit_char(d as nat)]);
    r
}

/// The decimal notation of `n`.
pub fn decimal_string(n: usize) -> (r: String)
    ensures
        r@ == decimal(n as nat),
    decreases n,
{
    if n < 10 {
        String::from_str(digit_str(n))
    } else {
        let mut s = decimal_string(n / 10);
        s.append(digit_str(n % 10));
        s
    }
}

fn append_files_word(s: &mut String, n: usize)
    ensures
        final(s)@ == old(s)@ + files_word(n as nat),
{
    if n == 1 {
        s.append("file");
    } else {
        s.append("files");
    }
}

/// The message that closes a batch of `total` jobs of which `successful`
/// succeeded and `failed` failed.
pub fn summary_message(total: usize, successful: usize, failed: usize) -> (r: String)
    ensures
        r@ == summary_text(total as nat, successful as nat, failed as nat),
{
    if failed == 0 {
        let mut s = String::from_str("Successfully processed ");
        s.append(decimal_string(successful).as_str());
        s.append(" ");
        append_files_word(&mut s, successful);
        s
    } else if successful == 0 {
        let mut s = String::from_str("Failed to process ");
        s.append(decimal_string(failed).as_str());
        s.append(" ");
        append_files_word(&mut s, failed);
        s
    } else {
        let mut s = String::from_str("Processed ");
        s.append(decimal_string(total).as_str());
        s.append(" ");
        append_files_word(&mut s, total);
        s.append(": ");
        s.append(decimal_string(successful).as_str());
        s.append(" successful, ");
        s.append(decimal_string(failed).as_str());
        s.append(" failed");
        s
    }
}

/// The message shown while job `done + 1` of `total` is under way.
pub fn progress_message(done: usize, total: usize) -> (r: String)
    requires
        done < total,
    ensures
        r@ == progress_text(done as nat, total as nat),
{
    let mut s = String::from_str("Processing ");
    s.append(decimal_string(done + 1).as_str());
    s.append(" of ");
    s.append(decimal_string(total).as_str());
    s.append(" files...");
    s
}

/// The hint shown while `n` files are dragged over the window.
pub fn drop_hint(n: usize) -> (r: String)
    ensures
        r@ == drop_hint_text(n as nat),
{
    if n == 1 {
        String::from_str("Drop to shuffle PDF")
    } else {
        let mut s = String::from_str("Drop to shuffle ");
        s.append(decimal_string(n).as_str());
        s.append(" PDFs");
        s
    }
}

} // verus!
