//! Camera scanning flow: which scanned codes are handled, and how parts of animated
//! codes are collected until their message is complete.

use vstd::prelude::*;
use crate::qr::{
    QrScanResult, QrScanState, content_text, current_parts, part_texts, store_ur_part,
    ur_data_view,
};
use crate::text::same_text;
use crate::uniform::{decode_ur_parts, joined_message};

verus! {

/// Text of the saved scan result, empty when there is none.
pub open spec fn saved_text(state: QrScanState) -> Seq<char> {
    match state.qr_scan_result {
        Some(r) => content_text(r@),
        None => Seq::empty(),
    }
}

/// Check if scanned data is to be parsed: it is not empty, and there is no saved result
/// text or the scanned text differs from it.
pub fn is_new_scan(data: &[u8], text: &str, state: &QrScanState) -> (r: bool)
    ensures
        r == (data@.len() > 0 && (saved_text(*state).len() == 0 || text@ != saved_text(*state))),
{
    if data.len() == 0 {
        return false;
    }
    let current = match &state.qr_scan_result {
        Some(res) => res.text(),
        None => String::new(),
    };
    current.as_str().is_empty() || !same_text(text, current.as_str())
}

/// Handle a parsed scan result. A part of Uniform Resources data that is not stored yet
/// is stored into the collected parts; when the parts then join into their message, the
/// message is returned to be parsed (see [`on_message_result`]); otherwise scanning goes
/// on. Any other result is saved and the collected parts are dropped; scanning stops.
pub fn on_scan_result(
    ur_data: &mut Option<(Vec<String>, usize)>,
    state: &mut QrScanState,
    res: QrScanResult,
) -> (r: Option<Vec<u8>>)
    requires
        match res {
            QrScanResult::URPart(uri, index, total) => !current_parts(
                ur_data_view(*old(ur_data)),
                total,
            ).contains(uri@) ==> index <= current_parts(ur_data_view(*old(ur_data)), total).len(),
            _ => true,
        },
    ensures
        match res {
            QrScanResult::URPart(uri, index, total) => {
                let parts = current_parts(ur_data_view(*old(ur_data)), total);
                if parts.contains(uri@) {
                    &&& r is None
                    &&& *final(ur_data) == *old(ur_data)
                    &&& final(state).qr_scan_result == old(state).qr_scan_result
                    &&& !final(state).image_processing
                } else {
                    let stored = parts.insert(index as int, uri@);
                    &&& ur_data_view(*final(ur_data)) == Some((stored, total))
                    &&& final(state).qr_scan_result == old(state).qr_scan_result
                    &&& match r {
                        Some(m) => joined_message(stored) == Some(m@)
                            && final(state).image_processing == old(state).image_processing,
                        None => joined_message(stored) is None && !final(state).image_processing,
                    }
                }
            },
            _ => {
                &&& r is None
                &&& *final(ur_data) is None
                &&& final(state).qr_scan_result == Some(res)
                &&& final(state).image_processing == old(state).image_processing
            },
        },
{
    match res {
        QrScanResult::URPart(uri, index, total) => {
            match store_ur_part(&*ur_data, uri, index, total) {
                None => {
                    state.image_processing = false;
                    None
                },
                Some(stored) => {
                    let message = decode_ur_parts(&stored.0);
                    *ur_data = Some(stored);
                    if message.is_none() {
                        state.image_processing = false;
                    }
                    message
                },
            }
        },
        _ => {
            *ur_data = None;
            state.qr_scan_result = Some(res);
            None
        },
    }
}

/// Save the result parsed from the message of complete Uniform Resources data: the
/// collected parts are dropped and scanning stops.
pub fn on_message_result(
    ur_data: &mut Option<(Vec<String>, usize)>,
    state: &mut QrScanState,
    res: QrScanResult,
)
    ensures
        *final(ur_data) is None,
        final(state).qr_scan_result == Some(res),
        final(state).image_processing == old(state).image_processing,
{
    *ur_data = None;
    state.qr_scan_result = Some(res);
}

} // verus!
