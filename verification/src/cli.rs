//! What a command line user reads.
use crate::text;
use vstd::prelude::*;
use vstd::string::*;

verus! {

/// The line that shows a balance.
pub fn balance_line(sats: u64, scan_height: u32, utxo_count: u32) -> (res: String)
    ensures
        res@ == "Balance: "@ + text::decimal_text(sats as nat) + " sats | scan height: "@
            + text::decimal_text(scan_height as nat) + " | UTXOs: "@ + text::decimal_text(
            utxo_count as nat,
        ),
{
    let mut line = text::joined("Balance: ", text::decimal(sats).as_str());
    line.append(" sats | scan height: ");
    line.append(text::decimal(scan_height as u64).as_str());
    line.append(" | UTXOs: ");
    line.append(text::decimal(utxo_count as u64).as_str());
    line
}

/// The text that shows a history, which may be empty.
pub fn history_text(entries: &str) -> (res: String)
    ensures
        res@ == if entries@.len() == 0 {
            "No history yet."@
        } else {
            entries@
        },
{
    if entries.unicode_len() == 0 {
        "No history yet.".to_owned()
    } else {
        entries.to_owned()
    }
}

/// A balance is shown with each of its three numbers in its own place, and a history is shown as
/// it is unless there is none.
pub proof fn lines_show_what_they_are_given(
    sats: u64,
    scan_height: u32,
    utxo_count: u32,
    line: String,
    entries: &str,
    shown: String,
)
    ensures
        call_ensures(balance_line, (sats, scan_height, utxo_count), line) ==> line@ == "Balance: "@
            + text::decimal_text(sats as nat) + " sats | scan height: "@ + text::decimal_text(
            scan_height as nat,
        ) + " | UTXOs: "@ + text::decimal_text(utxo_count as nat),
        call_ensures(history_text, (entries,), shown) && entries@.len() > 0 ==> shown@ == entries@,
        call_ensures(history_text, (entries,), shown) && entries@.len() == 0 ==> shown@
            == "No history yet."@,
{
}

} // verus!
