//! Making a texture into a render target on an OpenGL device.
//!
//! A framebuffer object needs the texture as its colour attachment, and a
//! render buffer for depth and stencil. Not every device takes the sized
//! format of that buffer, so it is tried first, and the unsized one after
//! it. Here are the decisions of that procedure: what to try next, and what
//! to report when the device took neither. Talking to the device is the
//! caller's part.

use vstd::prelude::*;
use crate::error::ErrorKind;

verus! {

/// The storage of the render buffer for depth and stencil.
#[derive(Clone, Copy, Debug, PartialEq, Eq, Structural)]
pub enum DepthStencil {
    /// 24 bits of depth and 8 bits of stencil.
    Sized,
    /// Depth and stencil of whatever size the device gives.
    Unsized,
}

/// What to do next while a framebuffer is set up.
#[derive(Clone, Debug, PartialEq, Eq)]
pub enum Setup {
    /// Give the render buffer this storage, attach the texture and the
    /// render buffer, and ask the device for the framebuffer's status.
    Attach(DepthStencil),
    /// The framebuffer is complete.
    Ready,
    /// The device took neither storage.
    Failed(ErrorKind),
}

/// `glow::FRAMEBUFFER_COMPLETE`, which is `0x8CD5`.
#[verifier::external_body]
fn framebuffer_complete() -> (r: u32)
    ensures
        r == 0x8CD5u32,
{
    glow::FRAMEBUFFER_COMPLETE
}

/// `glow::FRAMEBUFFER_INCOMPLETE_ATTACHMENT`, which is `0x8CD6`.
#[verifier::external_body]
fn framebuffer_incomplete_attachment() -> (r: u32)
    ensures
        r == 0x8CD6u32,
{
    glow::FRAMEBUFFER_INCOMPLETE_ATTACHMENT
}

/// `glow::FRAMEBUFFER_INCOMPLETE_MISSING_ATTACHMENT`, which is `0x8CD7`.
#[verifier::external_body]
fn framebuffer_incomplete_missing_attachment() -> (r: u32)
    ensures
        r == 0x8CD7u32,
{
    glow::FRAMEBUFFER_INCOMPLETE_MISSING_ATTACHMENT
}

/// `glow::FRAMEBUFFER_INCOMPLETE_MULTISAMPLE`, which is `0x8D56`.
#[verifier::external_body]
fn framebuffer_incomplete_multisample() -> (r: u32)
    ensures
        r == 0x8D56u32,
{
    glow::FRAMEBUFFER_INCOMPLETE_MULTISAMPLE
}

/// `glow::FRAMEBUFFER_UNSUPPORTED`, which is `0x8CDD`.
#[verifier::external_body]
fn framebuffer_unsupported() -> (r: u32)
    ensures
        r == 0x8CDDu32,
{
    glow::FRAMEBUFFER_UNSUPPORTED
}

/// The character of the digit `d`.
pub open spec fn digit(d: nat) -> char
    recommends
        d < 10,
{
    if d == 0 {
        '0'
    } else if d == 1 {
        '1'
    } else if d == 2 {
        '2'
    } else if d == 3 {
        '3'
    } else if d == 4 {
        '4'
    } else if d == 5 {
        '5'
    } else if d == 6 {
        '6'
    } else if d == 7 {
        '7'
    } else if d == 8 {
        '8'
    } else {
        '9'
    }
}

/// The digits of `n` in base ten, without leading zeros.
pub open spec fn decimal(n: nat) -> Seq<char>
    decreases n,
{
    if n < 10 {
        seq![digit(n)]
    } else {
        decimal(n / 10).push(digit(n % 10))
    }
}

/// The text `(status) reason`, the status in base ten.
pub open spec fn status_text(status: u32, reason: Seq<char>) -> Seq<char> {
    seq!['('] + decimal(status as nat) + seq![')', ' '] + reason
}

/// `u32::to_string`: the number in base ten, without sign or leading zeros.
#[verifier::external_body]
fn decimal_string(n: u32) -> (r: String)
    ensures
        r@ == decimal(n as nat),
{
    n.to_string()
}

/// `String::push_str`: `tail` is appended to `text`.
#[verifier::external_body]
fn push_str(text: &mut String, tail: &str)
    ensures
        final(text)@ == old(text)@ + tail@,
{
    text.push_str(tail)
}

/// Whether `status` says that a framebuffer is complete.
pub open spec fn is_complete(status: u32) -> bool {
    status == 0x8CD5u32
}

/// What is wrong with a framebuffer whose status is `status`.
pub open spec fn reason(status: u32) -> Seq<char> {
    if status == 0x8CD6u32 {
        "Framebuffer incomplete attachment"@
    } else if status == 0x8CD7u32 {
        "Framebuffer incomplete missing attachment"@
    } else if status == 0x8D56u32 {
        "Framebuffer incomplete multisample"@
    } else if status == 0x8CDDu32 {
        "Framebuffer unsupported"@
    } else {
        "Framebuffer not complete!"@
    }
}

impl Setup {
    /// What was decided after `tried` was attached and the device reported
    /// `status`.
    pub open spec fn decided(self, tried: DepthStencil, status: u32) -> bool {
        if is_complete(status) {
            self == Setup::Ready
        } else {
            match tried {
                DepthStencil::Sized => self == Setup::Attach(DepthStencil::Unsized),
                DepthStencil::Unsized => self matches Setup::Failed(
                    ErrorKind::RenderTargetError(text),
                ) && text@ == status_text(status, reason(status)),
            }
        }
    }

    /// The first step: try the sized storage.
    pub fn begin() -> (r: Setup)
        ensures
            r == Setup::Attach(DepthStencil::Sized),
    {
        Setup::Attach(DepthStencil::Sized)
    }

    /// The step after `tried` was attached and the device reported
    /// `status`.
    ///
    /// A complete framebuffer is ready. After the sized storage the unsized
    /// one is tried; after that one the setup has failed, with the status
    /// and what it means as the error's text.
    pub fn proceed(tried: DepthStencil, status: u32) -> (r: Setup)
        ensures
            r.decided(tried, status),
    {
        if status == framebuffer_complete() {
            Setup::Ready
        } else {
            match tried {
                DepthStencil::Sized => Setup::Attach(DepthStencil::Unsized),
                DepthStencil::Unsized => Setup::Failed(failure(status)),
            }
        }
    }
}

/// The error for a framebuffer that the device reports as `status`: the
/// status between brackets, and what it means.
pub fn failure(status: u32) -> (r: ErrorKind)
    ensures
        r matches ErrorKind::RenderTargetError(text) && text@ == status_text(status, reason(status)),
{
    let reason = if status == framebuffer_incomplete_attachment() {
        "Framebuffer incomplete attachment"
    } else if status == framebuffer_incomplete_missing_attachment() {
        "Framebuffer incomplete missing attachment"
    } else if status == framebuffer_incomplete_multisample() {
        "Framebuffer incomplete multisample"
    } else if status == framebuffer_unsupported() {
        "Framebuffer unsupported"
    } else {
        "Framebuffer not complete!"
    };
    let number = decimal_string(status);
    let mut text = "(".to_owned();
    push_str(&mut text, number.as_str());
    push_str(&mut text, ") ");
    push_str(&mut text, reason);
    proof {
        reveal_strlit("(");
        reveal_strlit(") ");
        assert(text@ =~= status_text(status, reason@));
    }
    ErrorKind::RenderTargetError(text)
}

} // verus!
