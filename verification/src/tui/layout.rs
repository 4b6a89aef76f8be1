//! Geometry of the popups, scrolling of the log panel, colour classes and
//! the masked or shortened texts of the overlays, as plain values; the
//! drawing code turns them into terminal widgets.

use vstd::prelude::*;
use crate::cloudflare_config::{CfAccount, CfAccountView};
use crate::text::string_push;
use vstd::string::StringSliceAdditionalSpecFns;
use vstd::utf8::{decode_utf8, encode_utf8, encode_utf8_decode_utf8, is_char_boundary};

verus! {

/// A rectangle of terminal cells.
#[derive(Debug, Clone, Copy, PartialEq, Eq, Structural)]
pub struct Rect {
    pub x: u16,
    pub y: u16,
    pub width: u16,
    pub height: u16,
}

/// The smaller of two numbers.
pub open spec fn min_nat(a: nat, b: nat) -> nat {
    if a <= b {
        a
    } else {
        b
    }
}

/// The popup for content of `content_width` columns and `content_rows`
/// rows with padding `(horizontal, top)` and a one-cell border: as large as
/// that, but no larger than `area`, and centred in it.
pub open spec fn popup_view(area: Rect, content_width: nat, content_rows: nat, pad_h: nat, pad_top: nat) -> Rect {
    let width = min_nat(content_width + pad_h * 2 + 2, area.width as nat);
    let height = min_nat(content_rows + pad_top + 2, area.height as nat);
    Rect {
        x: (area.x + (area.width - width) / 2) as u16,
        y: (area.y + (area.height - height) / 2) as u16,
        width: width as u16,
        height: height as u16,
    }
}

/// Places an auto-sized popup in `area`, centred (the size part of
/// `autosize_popup`).
pub fn popup_rect(area: Rect, content_width: u16, content_rows: u16, pad: (u16, u16)) -> (res: Rect)
    requires
        content_width + pad.0 * 2 + 2 <= u16::MAX,
        content_rows + pad.1 + 2 <= u16::MAX,
        area.x + area.width <= u16::MAX,
        area.y + area.height <= u16::MAX,
    ensures
        res == popup_view(area, content_width as nat, content_rows as nat, pad.0 as nat, pad.1 as nat),
        res.x + res.width <= area.x + area.width,
        res.y + res.height <= area.y + area.height,
        area.x <= res.x,
        area.y <= res.y,
{
    let border: u16 = 2;
    let w = content_width + pad.0 * 2 + border;
    let width = if w < area.width { w } else { area.width };
    let h = content_rows + pad.1 + border;
    let height = if h < area.height { h } else { area.height };
    let x = area.x + area.width.saturating_sub(width) / 2;
    let y = area.y + area.height.saturating_sub(height) / 2;
    Rect { x, y, width, height }
}

/// Colour class of an HTTP status in the endpoint test.
#[derive(Debug, Clone, Copy, PartialEq, Eq, Structural)]
pub enum StatusClass {
    /// 2xx.
    Success,
    /// 3xx.
    Redirect,
    /// 4xx.
    ClientError,
    /// 5xx.
    ServerError,
    /// Anything else.
    Other,
}

/// The class of a status code.
pub open spec fn status_class_view(status: u16) -> StatusClass {
    if 200 <= status <= 299 {
        StatusClass::Success
    } else if 300 <= status <= 399 {
        StatusClass::Redirect
    } else if 400 <= status <= 499 {
        StatusClass::ClientError
    } else if 500 <= status <= 599 {
        StatusClass::ServerError
    } else {
        StatusClass::Other
    }
}

/// The colour class of an HTTP status (`http_status_style`).
pub fn status_class(status: u16) -> (res: StatusClass)
    ensures
        res == status_class_view(status),
{
    if 200 <= status && status <= 299 {
        StatusClass::Success
    } else if 300 <= status && status <= 399 {
        StatusClass::Redirect
    } else if 400 <= status && status <= 499 {
        StatusClass::ClientError
    } else if 500 <= status && status <= 599 {
        StatusClass::ServerError
    } else {
        StatusClass::Other
    }
}

/// The first row of the log panel that is shown: the last screenful when
/// following new lines, else the scroll offset, never past the last screenful.
pub open spec fn scroll_start_view(total: nat, height: nat, auto_scroll: bool, offset: nat) -> nat {
    let max_scroll: nat = if total > height { (total - height) as nat } else { 0 };
    if auto_scroll || offset > max_scroll {
        max_scroll
    } else {
        offset
    }
}

/// The first visible row of `total` wrapped log rows in a panel `height`
/// rows high.
pub fn scroll_start(total: usize, height: usize, auto_scroll: bool, offset: u16) -> (res: usize)
    ensures
        res == scroll_start_view(total as nat, height as nat, auto_scroll, offset as nat),
{
    let max_scroll = total.saturating_sub(height);
    if auto_scroll || offset as usize > max_scroll {
        max_scroll
    } else {
        offset as usize
    }
}

/// The text made of the first `k` bytes of the UTF-8 encoding of `s`.
pub open spec fn byte_prefix_view(s: Seq<char>, k: nat) -> Seq<char> {
    decode_utf8(encode_utf8(s).subrange(0, k as int))
}

/// `min(n, k)`.
pub open spec fn at_most(n: nat, k: nat) -> nat {
    if n < k {
        n
    } else {
        k
    }
}

/// The first `k` bytes of `s` as a string (`&s[..k]`), where `k` falls on a
/// character boundary.
fn byte_prefix(s: &str, k: usize) -> (res: String)
    requires
        k <= s.spec_bytes().len(),
        is_char_boundary(s.spec_bytes(), k as int),
    ensures
        res@ == byte_prefix_view(s@, k as nat),
{
    let (head, _tail) = s.split_at(k);
    proof {
        encode_utf8_decode_utf8(head@);
        assert(head.spec_bytes() == encode_utf8(s@).subrange(0, k as int));
    }
    head.to_owned()
}

/// A secret as the settings overlay shows it: its first four bytes (all of
/// it when shorter), then one `*` for each further byte.
pub open spec fn masked_view(s: Seq<char>) -> Seq<char> {
    let n = encode_utf8(s).len();
    let vis = at_most(n, 4);
    byte_prefix_view(s, vis) + Seq::new((n - vis) as nat, |i: int| '*')
}

/// Masks a secret for display: its first four bytes, then one `*` for
/// each further byte. The fourth byte must end a character (the slice
/// `&s[..4]` is taken), which holds for the ASCII tokens it is shown for.
pub fn masked(s: &str) -> (res: String)
    requires
        is_char_boundary(s.spec_bytes(), at_most(s.spec_bytes().len(), 4) as int),
    ensures
        res@ == masked_view(s@),
{
    let n = s.as_bytes().len();
    let vis: usize = if n < 4 { n } else { 4 };
    let mut r = byte_prefix(s, vis);
    let ghost head = byte_prefix_view(s@, vis as nat);
    assert(r@ =~= head + Seq::new(0, |i: int| '*'));
    let mut k: usize = vis;
    while k < n
        invariant
            vis <= k <= n,
            n == encode_utf8(s@).len(),
            r@ == head + Seq::new((k - vis) as nat, |i: int| '*'),
        decreases n - k,
    {
        string_push(&mut r, '*');
        proof {
            assert(head + Seq::new((k + 1 - vis) as nat, |i: int| '*') =~= (head + Seq::new(
                (k - vis) as nat,
                |i: int| '*',
            )).push('*'));
        }
        k = k + 1;
    }
    r
}

/// How an account is named in the selectors: its name, or the first eight
/// bytes of its id followed by `...` when it has none.
pub open spec fn account_label_view(a: CfAccountView) -> Seq<char> {
    if a.name.len() > 0 {
        a.name
    } else {
        byte_prefix_view(a.account_id, at_most(encode_utf8(a.account_id).len(), 8)) + seq!['.', '.', '.']
    }
}

/// The label of an account in the selectors. For an account without a
/// name the eighth byte of the id must end a character (the slice
/// `&id[..8]` is taken), which holds for the ASCII ids Cloudflare gives.
pub fn account_label(a: &CfAccount) -> (res: String)
    requires
        a.name@.len() == 0 ==> is_char_boundary(
            encode_utf8(a.account_id@),
            at_most(encode_utf8(a.account_id@).len(), 8) as int,
        ),
    ensures
        res@ == account_label_view(a@),
{
    if !a.name.as_str().is_empty() {
        return a.name.clone();
    }
    let id = a.account_id.as_str();
    let n = id.as_bytes().len();
    let k: usize = if n < 8 { n } else { 8 };
    let mut r = byte_prefix(id, k);
    string_push(&mut r, '.');
    string_push(&mut r, '.');
    string_push(&mut r, '.');
    assert(r@ =~= byte_prefix_view(a@.account_id, k as nat) + seq!['.', '.', '.']);
    r
}

} // verus!
