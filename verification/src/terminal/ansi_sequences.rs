//! Control sequences of ANSI terminals, built from the escape and control
//! sequence introducer characters.
use vstd::prelude::*;

use crate::general::terminal::ANSICode as LiteralANSICode;
use crate::text::push_str;

verus! {

/// A terminal control sequence.
pub trait ANSICode: Send + Sync {
    /// The characters of the sequence.
    spec fn spec_value(&self) -> Seq<char>;

    /// The sequence as a string.
    fn value(&self) -> (r: String)
        ensures
            r@ == self.spec_value(),
    ;

    /// The sequence in a box.
    fn boxed(self) -> (r: Box<Self>) where Self: Sized
        ensures
            *r == self,
    {
        Box::new(self)
    }
}

/// A sequence made by combining others.
#[derive(Clone)]
pub struct CombinedANSI(String);

impl ANSICode for CombinedANSI {
    open spec fn spec_value(&self) -> Seq<char> {
        self.text()
    }

    fn value(&self) -> (r: String) {
        let r: String = self.0.clone();
        assert(r@ == self.text());
        assert(r@ == self.spec_value());
        r
    }

}

impl CombinedANSI {
    /// This sequence followed by `other`.
    pub fn combine<T: ANSICode>(&self, other: &T) -> (r: CombinedANSI)
        ensures
            r.text() == self.spec_value() + other.spec_value(),
    {
        let mut s: String = self.value();
        let o: String = other.value();
        push_str(&mut s, o.as_str());
        CombinedANSI(s)
    }

    /// The characters of the combined sequence.
    pub closed spec fn text(&self) -> Seq<char> {
        self.0@
    }

    /// A combined sequence holding `text`.
    fn from_text(text: String) -> (r: CombinedANSI)
        ensures
            r.text() == text@,
    {
        CombinedANSI(text)
    }
}

/// The escape character.
#[derive(Copy, Clone)]
pub struct EscapeANSI;

impl ANSICode for EscapeANSI {
    open spec fn spec_value(&self) -> Seq<char> {
        "\x1B"@
    }

    fn value(&self) -> (r: String) {
        String::from_str("\x1B")
    }
}

impl EscapeANSI {
    /// This sequence followed by `other`.
    pub fn combine<T: ANSICode>(&self, other: &T) -> (r: CombinedANSI)
        ensures
            r.text() == self.spec_value() + other.spec_value(),
    {
        let mut s: String = self.value();
        let o: String = other.value();
        push_str(&mut s, o.as_str());
        CombinedANSI::from_text(s)
    }
}

/// The control sequence introducer `[`.
#[derive(Copy, Clone)]
pub struct CtrlSeqANSI;

impl ANSICode for CtrlSeqANSI {
    open spec fn spec_value(&self) -> Seq<char> {
        "\x5B"@
    }

    fn value(&self) -> (r: String) {
        String::from_str("\x5B")
    }
}

impl CtrlSeqANSI {
    /// This sequence followed by `other`.
    pub fn combine<T: ANSICode>(&self, other: &T) -> (r: CombinedANSI)
        ensures
            r.text() == self.spec_value() + other.spec_value(),
    {
        let mut s: String = self.value();
        let o: String = other.value();
        push_str(&mut s, o.as_str());
        CombinedANSI::from_text(s)
    }
}

/// The device control string introducer `P`.
#[derive(Copy, Clone)]
pub struct DeviceCtrlANSI;

impl ANSICode for DeviceCtrlANSI {
    open spec fn spec_value(&self) -> Seq<char> {
        "\x50"@
    }

    fn value(&self) -> (r: String) {
        String::from_str("\x50")
    }
}

impl DeviceCtrlANSI {
    /// This sequence followed by `other`.
    pub fn combine<T: ANSICode>(&self, other: &T) -> (r: CombinedANSI)
        ensures
            r.text() == self.spec_value() + other.spec_value(),
    {
        let mut s: String = self.value();
        let o: String = other.value();
        push_str(&mut s, o.as_str());
        CombinedANSI::from_text(s)
    }
}

/// The string terminator `\`.
#[derive(Copy, Clone)]
pub struct TerminatorANSI;

impl ANSICode for TerminatorANSI {
    open spec fn spec_value(&self) -> Seq<char> {
        "\x5C"@
    }

    fn value(&self) -> (r: String) {
        String::from_str("\x5C")
    }
}

impl TerminatorANSI {
    /// This sequence followed by `other`.
    pub fn combine<T: ANSICode>(&self, other: &T) -> (r: CombinedANSI)
        ensures
            r.text() == self.spec_value() + other.spec_value(),
    {
        let mut s: String = self.value();
        let o: String = other.value();
        push_str(&mut s, o.as_str());
        CombinedANSI::from_text(s)
    }
}

/// The operating system command introducer `]`.
#[derive(Copy, Clone)]
pub struct OSCommandANSI;

impl ANSICode for OSCommandANSI {
    open spec fn spec_value(&self) -> Seq<char> {
        "\x5D"@
    }

    fn value(&self) -> (r: String) {
        String::from_str("\x5D")
    }
}

impl OSCommandANSI {
    /// This sequence followed by `other`.
    pub fn combine<T: ANSICode>(&self, other: &T) -> (r: CombinedANSI)
        ensures
            r.text() == self.spec_value() + other.spec_value(),
    {
        let mut s: String = self.value();
        let o: String = other.value();
        push_str(&mut s, o.as_str());
        CombinedANSI::from_text(s)
    }
}

/// Single shift two, `N`.
#[derive(Copy, Clone)]
pub struct SingleShift2ANSI;

impl ANSICode for SingleShift2ANSI {
    open spec fn spec_value(&self) -> Seq<char> {
        "\x4E"@
    }

    fn value(&self) -> (r: String) {
        String::from_str("\x4E")
    }
}

impl SingleShift2ANSI {
    /// This sequence followed by `other`.
    pub fn combine<T: ANSICode>(&self, other: &T) -> (r: CombinedANSI)
        ensures
            r.text() == self.spec_value() + other.spec_value(),
    {
        let mut s: String = self.value();
        let o: String = other.value();
        push_str(&mut s, o.as_str());
        CombinedANSI::from_text(s)
    }
}

/// Single shift three, `O`.
#[derive(Copy, Clone)]
pub struct SingleShift3ANSI;

impl ANSICode for SingleShift3ANSI {
    open spec fn spec_value(&self) -> Seq<char> {
        "\x4F"@
    }

    fn value(&self) -> (r: String) {
        String::from_str("\x4F")
    }
}

impl SingleShift3ANSI {
    /// This sequence followed by `other`.
    pub fn combine<T: ANSICode>(&self, other: &T) -> (r: CombinedANSI)
        ensures
            r.text() == self.spec_value() + other.spec_value(),
    {
        let mut s: String = self.value();
        let o: String = other.value();
        push_str(&mut s, o.as_str());
        CombinedANSI::from_text(s)
    }
}

/// The control sequence introducer: escape followed by `[`.
pub open spec fn csi() -> Seq<char> {
    EscapeANSI.spec_value() + CtrlSeqANSI.spec_value()
}

/// Resets colours and styles.
#[derive(Copy, Clone)]
pub struct ResetANSI;

impl ANSICode for ResetANSI {
    open spec fn spec_value(&self) -> Seq<char> {
        csi() + "0m"@
    }

    fn value(&self) -> (r: String) {
        let mut csi: String = EscapeANSI.combine(&CtrlSeqANSI).value();
        push_str(&mut csi, "0m");
        csi
    }
}

impl ResetANSI {
    /// This sequence followed by `other`.
    pub fn combine<T: ANSICode>(&self, other: &T) -> (r: CombinedANSI)
        ensures
            r.text() == self.spec_value() + other.spec_value(),
    {
        let mut s: String = self.value();
        let o: String = other.value();
        push_str(&mut s, o.as_str());
        CombinedANSI::from_text(s)
    }
}

/// Black foreground.
#[derive(Copy, Clone)]
pub struct BlackANSI;

impl ANSICode for BlackANSI {
    open spec fn spec_value(&self) -> Seq<char> {
        csi() + "30m"@
    }

    fn value(&self) -> (r: String) {
        let mut csi: String = EscapeANSI.combine(&CtrlSeqANSI).value();
        push_str(&mut csi, "30m");
        csi
    }
}

impl BlackANSI {
    /// This sequence followed by `other`.
    pub fn combine<T: ANSICode>(&self, other: &T) -> (r: CombinedANSI)
        ensures
            r.text() == self.spec_value() + other.spec_value(),
    {
        let mut s: String = self.value();
        let o: String = other.value();
        push_str(&mut s, o.as_str());
        CombinedANSI::from_text(s)
    }
}

/// Red foreground.
#[derive(Copy, Clone)]
pub struct RedANSI;

impl ANSICode for RedANSI {
    open spec fn spec_value(&self) -> Seq<char> {
        csi() + "31m"@
    }

    fn value(&self) -> (r: String) {
        let mut csi: String = EscapeANSI.combine(&CtrlSeqANSI).value();
        push_str(&mut csi, "31m");
        csi
    }
}

impl RedANSI {
    /// This sequence followed by `other`.
    pub fn combine<T: ANSICode>(&self, other: &T) -> (r: CombinedANSI)
        ensures
            r.text() == self.spec_value() + other.spec_value(),
    {
        let mut s: String = self.value();
        let o: String = other.value();
        push_str(&mut s, o.as_str());
        CombinedANSI::from_text(s)
    }
}

/// Green foreground.
#[derive(Copy, Clone)]
pub struct GreenANSI;

impl ANSICode for GreenANSI {
    open spec fn spec_value(&self) -> Seq<char> {
        csi() + "32m"@
    }

    fn value(&self) -> (r: String) {
        let mut csi: String = EscapeANSI.combine(&CtrlSeqANSI).value();
        push_str(&mut csi, "32m");
        csi
    }
}

impl GreenANSI {
    /// This sequence followed by `other`.
    pub fn combine<T: ANSICode>(&self, other: &T) -> (r: CombinedANSI)
        ensures
            r.text() == self.spec_value() + other.spec_value(),
    {
        let mut s: String = self.value();
        let o: String = other.value();
        push_str(&mut s, o.as_str());
        CombinedANSI::from_text(s)
    }
}

/// Yellow foreground.
#[derive(Copy, Clone)]
pub struct YellowANSI;

impl ANSICode for YellowANSI {
    open spec fn spec_value(&self) -> Seq<char> {
        csi() + "33m"@
    }

    fn value(&self) -> (r: String) {
        let mut csi: String = EscapeANSI.combine(&CtrlSeqANSI).value();
        push_str(&mut csi, "33m");
        csi
    }
}

impl YellowANSI {
    /// This sequence followed by `other`.
    pub fn combine<T: ANSICode>(&self, other: &T) -> (r: CombinedANSI)
        ensures
            r.text() == self.spec_value() + other.spec_value(),
    {
        let mut s: String = self.value();
        let o: String = other.value();
        push_str(&mut s, o.as_str());
        CombinedANSI::from_text(s)
    }
}

/// Blue foreground.
#[derive(Copy, Clone)]
pub struct BlueANSI;

impl ANSICode for BlueANSI {
    open spec fn spec_value(&self) -> Seq<char> {
        csi() + "34m"@
    }

    fn value(&self) -> (r: String) {
        let mut csi: String = EscapeANSI.combine(&CtrlSeqANSI).value();
        push_str(&mut csi, "34m");
        csi
    }
}

impl BlueANSI {
    /// This sequence followed by `other`.
    pub fn combine<T: ANSICode>(&self, other: &T) -> (r: CombinedANSI)
        ensures
            r.text() == self.spec_value() + other.spec_value(),
    {
        let mut s: String = self.value();
        let o: String = other.value();
        push_str(&mut s, o.as_str());
        CombinedANSI::from_text(s)
    }
}

/// Magenta foreground.
#[derive(Copy, Clone)]
pub struct MagentaANSI;

impl ANSICode for MagentaANSI {
    open spec fn spec_value(&self) -> Seq<char> {
        csi() + "35m"@
    }

    fn value(&self) -> (r: String) {
        let mut csi: String = EscapeANSI.combine(&CtrlSeqANSI).value();
        push_str(&mut csi, "35m");
        csi
    }
}

impl MagentaANSI {
    /// This sequence followed by `other`.
    pub fn combine<T: ANSICode>(&self, other: &T) -> (r: CombinedANSI)
        ensures
            r.text() == self.spec_value() + other.spec_value(),
    {
        let mut s: String = self.value();
        let o: String = other.value();
        push_str(&mut s, o.as_str());
        CombinedANSI::from_text(s)
    }
}

/// Cyan foreground.
#[derive(Copy, Clone)]
pub struct CyanANSI;

impl ANSICode for CyanANSI {
    open spec fn spec_value(&self) -> Seq<char> {
        csi() + "36m"@
    }

    fn value(&self) -> (r: String) {
        let mut csi: String = EscapeANSI.combine(&CtrlSeqANSI).value();
        push_str(&mut csi, "36m");
        csi
    }
}

impl CyanANSI {
    /// This sequence followed by `other`.
    pub fn combine<T: ANSICode>(&self, other: &T) -> (r: CombinedANSI)
        ensures
            r.text() == self.spec_value() + other.spec_value(),
    {
        let mut s: String = self.value();
        let o: String = other.value();
        push_str(&mut s, o.as_str());
        CombinedANSI::from_text(s)
    }
}

/// White foreground.
#[derive(Copy, Clone)]
pub struct WhiteANSI;

impl ANSICode for WhiteANSI {
    open spec fn spec_value(&self) -> Seq<char> {
        csi() + "37m"@
    }

    fn value(&self) -> (r: String) {
        let mut csi: String = EscapeANSI.combine(&CtrlSeqANSI).value();
        push_str(&mut csi, "37m");
        csi
    }
}

impl WhiteANSI {
    /// This sequence followed by `other`.
    pub fn combine<T: ANSICode>(&self, other: &T) -> (r: CombinedANSI)
        ensures
            r.text() == self.spec_value() + other.spec_value(),
    {
        let mut s: String = self.value();
        let o: String = other.value();
        push_str(&mut s, o.as_str());
        CombinedANSI::from_text(s)
    }
}

/// Black background.
#[derive(Copy, Clone)]
pub struct BlackBackgroundANSI;

impl ANSICode for BlackBackgroundANSI {
    open spec fn spec_value(&self) -> Seq<char> {
        csi() + "40m"@
    }

    fn value(&self) -> (r: String) {
        let mut csi: String = EscapeANSI.combine(&CtrlSeqANSI).value();
        push_str(&mut csi, "40m");
        csi
    }
}

impl BlackBackgroundANSI {
    /// This sequence followed by `other`.
    pub fn combine<T: ANSICode>(&self, other: &T) -> (r: CombinedANSI)
        ensures
            r.text() == self.spec_value() + other.spec_value(),
    {
        let mut s: String = self.value();
        let o: String = other.value();
        push_str(&mut s, o.as_str());
        CombinedANSI::from_text(s)
    }
}

/// Red background.
#[derive(Copy, Clone)]
pub struct RedBackgroundANSI;

impl ANSICode for RedBackgroundANSI {
    open spec fn spec_value(&self) -> Seq<char> {
        csi() + "41m"@
    }

    fn value(&self) -> (r: String) {
        let mut csi: String = EscapeANSI.combine(&CtrlSeqANSI).value();
        push_str(&mut csi, "41m");
        csi
    }
}

impl RedBackgroundANSI {
    /// This sequence followed by `other`.
    pub fn combine<T: ANSICode>(&self, other: &T) -> (r: CombinedANSI)
        ensures
            r.text() == self.spec_value() + other.spec_value(),
    {
        let mut s: String = self.value();
        let o: String = other.value();
        push_str(&mut s, o.as_str());
        CombinedANSI::from_text(s)
    }
}

/// Green background.
#[derive(Copy, Clone)]
pub struct GreenBackgroundANSI;

impl ANSICode for GreenBackgroundANSI {
    open spec fn spec_value(&self) -> Seq<char> {
        csi() + "42m"@
    }

    fn value(&self) -> (r: String) {
        let mut csi: String = EscapeANSI.combine(&CtrlSeqANSI).value();
        push_str(&mut csi, "42m");
        csi
    }
}

impl GreenBackgroundANSI {
    /// This sequence followed by `other`.
    pub fn combine<T: ANSICode>(&self, other: &T) -> (r: CombinedANSI)
        ensures
            r.text() == self.spec_value() + other.spec_value(),
    {
        let mut s: String = self.value();
        let o: String = other.value();
        push_str(&mut s, o.as_str());
        CombinedANSI::from_text(s)
    }
}

/// Yellow background.
#[derive(Copy, Clone)]
pub struct YellowBackgroundANSI;

impl ANSICode for YellowBackgroundANSI {
    open spec fn spec_value(&self) -> Seq<char> {
        csi() + "43m"@
    }

    fn value(&self) -> (r: String) {
        let mut csi: String = EscapeANSI.combine(&CtrlSeqANSI).value();
        push_str(&mut csi, "43m");
        csi
    }
}

impl YellowBackgroundANSI {
    /// This sequence followed by `other`.
    pub fn combine<T: ANSICode>(&self, other: &T) -> (r: CombinedANSI)
        ensures
            r.text() == self.spec_value() + other.spec_value(),
    {
        let mut s: String = self.value();
        let o: String = other.value();
        push_str(&mut s, o.as_str());
        CombinedANSI::from_text(s)
    }
}

/// Blue background.
#[derive(Copy, Clone)]
pub struct BlueBackgroundANSI;

impl ANSICode for BlueBackgroundANSI {
    open spec fn spec_value(&self) -> Seq<char> {
        csi() + "44m"@
    }

    fn value(&self) -> (r: String) {
        let mut csi: String = EscapeANSI.combine(&CtrlSeqANSI).value();
        push_str(&mut csi, "44m");
        csi
    }
}

impl BlueBackgroundANSI {
    /// This sequence followed by `other`.
    pub fn combine<T: ANSICode>(&self, other: &T) -> (r: CombinedANSI)
        ensures
            r.text() == self.spec_value() + other.spec_value(),
    {
        let mut s: String = self.value();
        let o: String = other.value();
        push_str(&mut s, o.as_str());
        CombinedANSI::from_text(s)
    }
}

/// Magenta background.
#[derive(Copy, Clone)]
pub struct MagentaBackgroundANSI;

impl ANSICode for MagentaBackgroundANSI {
    open spec fn spec_value(&self) -> Seq<char> {
        csi() + "45m"@
    }

    fn value(&self) -> (r: String) {
        let mut csi: String = EscapeANSI.combine(&CtrlSeqANSI).value();
        push_str(&mut csi, "45m");
        csi
    }
}

impl MagentaBackgroundANSI {
    /// This sequence followed by `other`.
    pub fn combine<T: ANSICode>(&self, other: &T) -> (r: CombinedANSI)
        ensures
            r.text() == self.spec_value() + other.spec_value(),
    {
        let mut s: String = self.value();
        let o: String = other.value();
        push_str(&mut s, o.as_str());
        CombinedANSI::from_text(s)
    }
}

/// Cyan background.
#[derive(Copy, Clone)]
pub struct CyanBackgroundANSI;

impl ANSICode for CyanBackgroundANSI {
    open spec fn spec_value(&self) -> Seq<char> {
        csi() + "46m"@
    }

    fn value(&self) -> (r: String) {
        let mut csi: String = EscapeANSI.combine(&CtrlSeqANSI).value();
        push_str(&mut csi, "46m");
        csi
    }
}

impl CyanBackgroundANSI {
    /// This sequence followed by `other`.
    pub fn combine<T: ANSICode>(&self, other: &T) -> (r: CombinedANSI)
        ensures
            r.text() == self.spec_value() + other.spec_value(),
    {
        let mut s: String = self.value();
        let o: String = other.value();
        push_str(&mut s, o.as_str());
        CombinedANSI::from_text(s)
    }
}

/// White background.
#[derive(Copy, Clone)]
pub struct WhiteBackgroundANSI;

impl ANSICode for WhiteBackgroundANSI {
    open spec fn spec_value(&self) -> Seq<char> {
        csi() + "47m"@
    }

    fn value(&self) -> (r: String) {
        let mut csi: String = EscapeANSI.combine(&CtrlSeqANSI).value();
        push_str(&mut csi, "47m");
        csi
    }
}

impl WhiteBackgroundANSI {
    /// This sequence followed by `other`.
    pub fn combine<T: ANSICode>(&self, other: &T) -> (r: CombinedANSI)
        ensures
            r.text() == self.spec_value() + other.spec_value(),
    {
        let mut s: String = self.value();
        let o: String = other.value();
        push_str(&mut s, o.as_str());
        CombinedANSI::from_text(s)
    }
}

/// Switches on underlined text.
#[derive(Copy, Clone)]
pub struct UnderlineOnANSI;

impl ANSICode for UnderlineOnANSI {
    open spec fn spec_value(&self) -> Seq<char> {
        csi() + "4m"@
    }

    fn value(&self) -> (r: String) {
        let mut csi: String = EscapeANSI.combine(&CtrlSeqANSI).value();
        push_str(&mut csi, "4m");
        csi
    }
}

impl UnderlineOnANSI {
    /// This sequence followed by `other`.
    pub fn combine<T: ANSICode>(&self, other: &T) -> (r: CombinedANSI)
        ensures
            r.text() == self.spec_value() + other.spec_value(),
    {
        let mut s: String = self.value();
        let o: String = other.value();
        push_str(&mut s, o.as_str());
        CombinedANSI::from_text(s)
    }
}

/// Switches off underlined text.
#[derive(Copy, Clone)]
pub struct UnderlineOffANSI;

impl ANSICode for UnderlineOffANSI {
    open spec fn spec_value(&self) -> Seq<char> {
        csi() + "24m"@
    }

    fn value(&self) -> (r: String) {
        let mut csi: String = EscapeANSI.combine(&CtrlSeqANSI).value();
        push_str(&mut csi, "24m");
        csi
    }
}

impl UnderlineOffANSI {
    /// This sequence followed by `other`.
    pub fn combine<T: ANSICode>(&self, other: &T) -> (r: CombinedANSI)
        ensures
            r.text() == self.spec_value() + other.spec_value(),
    {
        let mut s: String = self.value();
        let o: String = other.value();
        push_str(&mut s, o.as_str());
        CombinedANSI::from_text(s)
    }
}

/// Switches on italic text.
#[derive(Copy, Clone)]
pub struct ItalicOnANSI;

impl ANSICode for ItalicOnANSI {
    open spec fn spec_value(&self) -> Seq<char> {
        csi() + "3m"@
    }

    fn value(&self) -> (r: String) {
        let mut csi: String = EscapeANSI.combine(&CtrlSeqANSI).value();
        push_str(&mut csi, "3m");
        csi
    }
}

impl ItalicOnANSI {
    /// This sequence followed by `other`.
    pub fn combine<T: ANSICode>(&self, other: &T) -> (r: CombinedANSI)
        ensures
            r.text() == self.spec_value() + other.spec_value(),
    {
        let mut s: String = self.value();
        let o: String = other.value();
        push_str(&mut s, o.as_str());
        CombinedANSI::from_text(s)
    }
}

/// Switches off italic text.
#[derive(Copy, Clone)]
pub struct ItalicOffANSI;

impl ANSICode for ItalicOffANSI {
    open spec fn spec_value(&self) -> Seq<char> {
        csi() + "23m"@
    }

    fn value(&self) -> (r: String) {
        let mut csi: String = EscapeANSI.combine(&CtrlSeqANSI).value();
        push_str(&mut csi, "23m");
        csi
    }
}

impl ItalicOffANSI {
    /// This sequence followed by `other`.
    pub fn combine<T: ANSICode>(&self, other: &T) -> (r: CombinedANSI)
        ensures
            r.text() == self.spec_value() + other.spec_value(),
    {
        let mut s: String = self.value();
        let o: String = other.value();
        push_str(&mut s, o.as_str());
        CombinedANSI::from_text(s)
    }
}

/// Switches on bold text.
#[derive(Copy, Clone)]
pub struct BoldOnANSI;

impl ANSICode for BoldOnANSI {
    open spec fn spec_value(&self) -> Seq<char> {
        csi() + "1m"@
    }

    fn value(&self) -> (r: String) {
        let mut csi: String = EscapeANSI.combine(&CtrlSeqANSI).value();
        push_str(&mut csi, "1m");
        csi
    }
}

impl BoldOnANSI {
    /// This sequence followed by `other`.
    pub fn combine<T: ANSICode>(&self, other: &T) -> (r: CombinedANSI)
        ensures
            r.text() == self.spec_value() + other.spec_value(),
    {
        let mut s: String = self.value();
        let o: String = other.value();
        push_str(&mut s, o.as_str());
        CombinedANSI::from_text(s)
    }
}

/// Switches off bold text.
#[derive(Copy, Clone)]
pub struct BoldOffANSI;

impl ANSICode for BoldOffANSI {
    open spec fn spec_value(&self) -> Seq<char> {
        csi() + "22m"@
    }

    fn value(&self) -> (r: String) {
        let mut csi: String = EscapeANSI.combine(&CtrlSeqANSI).value();
        push_str(&mut csi, "22m");
        csi
    }
}

impl BoldOffANSI {
    /// This sequence followed by `other`.
    pub fn combine<T: ANSICode>(&self, other: &T) -> (r: CombinedANSI)
        ensures
            r.text() == self.spec_value() + other.spec_value(),
    {
        let mut s: String = self.value();
        let o: String = other.value();
        push_str(&mut s, o.as_str());
        CombinedANSI::from_text(s)
    }
}

/// Switches on dim text.
#[derive(Copy, Clone)]
pub struct DimOnANSI;

impl ANSICode for DimOnANSI {
    open spec fn spec_value(&self) -> Seq<char> {
        csi() + "2m"@
    }

    fn value(&self) -> (r: String) {
        let mut csi: String = EscapeANSI.combine(&CtrlSeqANSI).value();
        push_str(&mut csi, "2m");
        csi
    }
}

impl DimOnANSI {
    /// This sequence followed by `other`.
    pub fn combine<T: ANSICode>(&self, other: &T) -> (r: CombinedANSI)
        ensures
            r.text() == self.spec_value() + other.spec_value(),
    {
        let mut s: String = self.value();
        let o: String = other.value();
        push_str(&mut s, o.as_str());
        CombinedANSI::from_text(s)
    }
}

/// Switches off dim text.
#[derive(Copy, Clone)]
pub struct DimOffANSI;

impl ANSICode for DimOffANSI {
    open spec fn spec_value(&self) -> Seq<char> {
        csi() + "22m"@
    }

    fn value(&self) -> (r: String) {
        let mut csi: String = EscapeANSI.combine(&CtrlSeqANSI).value();
        push_str(&mut csi, "22m");
        csi
    }
}

impl DimOffANSI {
    /// This sequence followed by `other`.
    pub fn combine<T: ANSICode>(&self, other: &T) -> (r: CombinedANSI)
        ensures
            r.text() == self.spec_value() + other.spec_value(),
    {
        let mut s: String = self.value();
        let o: String = other.value();
        push_str(&mut s, o.as_str());
        CombinedANSI::from_text(s)
    }
}

/// Switches on struck-through text.
#[derive(Copy, Clone)]
pub struct StrikeThroughOnANSI;

impl ANSICode for StrikeThroughOnANSI {
    open spec fn spec_value(&self) -> Seq<char> {
        csi() + "9m"@
    }

    fn value(&self) -> (r: String) {
        let mut csi: String = EscapeANSI.combine(&CtrlSeqANSI).value();
        push_str(&mut csi, "9m");
        csi
    }
}

impl StrikeThroughOnANSI {
    /// This sequence followed by `other`.
    pub fn combine<T: ANSICode>(&self, other: &T) -> (r: CombinedANSI)
        ensures
            r.text() == self.spec_value() + other.spec_value(),
    {
        let mut s: String = self.value();
        let o: String = other.value();
        push_str(&mut s, o.as_str());
        CombinedANSI::from_text(s)
    }
}

/// Switches off struck-through text.
#[derive(Copy, Clone)]
pub struct StrikeThroughOffANSI;

impl ANSICode for StrikeThroughOffANSI {
    open spec fn spec_value(&self) -> Seq<char> {
        csi() + "29m"@
    }

    fn value(&self) -> (r: String) {
        let mut csi: String = EscapeANSI.combine(&CtrlSeqANSI).value();
        push_str(&mut csi, "29m");
        csi
    }
}

impl StrikeThroughOffANSI {
    /// This sequence followed by `other`.
    pub fn combine<T: ANSICode>(&self, other: &T) -> (r: CombinedANSI)
        ensures
            r.text() == self.spec_value() + other.spec_value(),
    {
        let mut s: String = self.value();
        let o: String = other.value();
        push_str(&mut s, o.as_str());
        CombinedANSI::from_text(s)
    }
}

/// Switches on blinking text.
#[derive(Copy, Clone)]
pub struct BlinkOnANSI;

impl ANSICode for BlinkOnANSI {
    open spec fn spec_value(&self) -> Seq<char> {
        csi() + "5m"@
    }

    fn value(&self) -> (r: String) {
        let mut csi: String = EscapeANSI.combine(&CtrlSeqANSI).value();
        push_str(&mut csi, "5m");
        csi
    }
}

impl BlinkOnANSI {
    /// This sequence followed by `other`.
    pub fn combine<T: ANSICode>(&self, other: &T) -> (r: CombinedANSI)
        ensures
            r.text() == self.spec_value() + other.spec_value(),
    {
        let mut s: String = self.value();
        let o: String = other.value();
        push_str(&mut s, o.as_str());
        CombinedANSI::from_text(s)
    }
}

/// Switches off blinking text.
#[derive(Copy, Clone)]
pub struct BlinkOffANSI;

impl ANSICode for BlinkOffANSI {
    open spec fn spec_value(&self) -> Seq<char> {
        csi() + "25m"@
    }

    fn value(&self) -> (r: String) {
        let mut csi: String = EscapeANSI.combine(&CtrlSeqANSI).value();
        push_str(&mut csi, "25m");
        csi
    }
}

impl BlinkOffANSI {
    /// This sequence followed by `other`.
    pub fn combine<T: ANSICode>(&self, other: &T) -> (r: CombinedANSI)
        ensures
            r.text() == self.spec_value() + other.spec_value(),
    {
        let mut s: String = self.value();
        let o: String = other.value();
        push_str(&mut s, o.as_str());
        CombinedANSI::from_text(s)
    }
}

/// Switches on invisible text.
#[derive(Copy, Clone)]
pub struct InvisibleOnANSI;

impl ANSICode for InvisibleOnANSI {
    open spec fn spec_value(&self) -> Seq<char> {
        csi() + "8m"@
    }

    fn value(&self) -> (r: String) {
        let mut csi: String = EscapeANSI.combine(&CtrlSeqANSI).value();
        push_str(&mut csi, "8m");
        csi
    }
}

impl InvisibleOnANSI {
    /// This sequence followed by `other`.
    pub fn combine<T: ANSICode>(&self, other: &T) -> (r: CombinedANSI)
        ensures
            r.text() == self.spec_value() + other.spec_value(),
    {
        let mut s: String = self.value();
        let o: String = other.value();
        push_str(&mut s, o.as_str());
        CombinedANSI::from_text(s)
    }
}

/// Switches off invisible text.
#[derive(Copy, Clone)]
pub struct InvisibleOffANSI;

impl ANSICode for InvisibleOffANSI {
    open spec fn spec_value(&self) -> Seq<char> {
        csi() + "28m"@
    }

    fn value(&self) -> (r: String) {
        let mut csi: String = EscapeANSI.combine(&CtrlSeqANSI).value();
        push_str(&mut csi, "28m");
        csi
    }
}

impl InvisibleOffANSI {
    /// This sequence followed by `other`.
    pub fn combine<T: ANSICode>(&self, other: &T) -> (r: CombinedANSI)
        ensures
            r.text() == self.spec_value() + other.spec_value(),
    {
        let mut s: String = self.value();
        let o: String = other.value();
        push_str(&mut s, o.as_str());
        CombinedANSI::from_text(s)
    }
}

/// Switches on inverse colours.
#[derive(Copy, Clone)]
pub struct InverseOnANSI;

impl ANSICode for InverseOnANSI {
    open spec fn spec_value(&self) -> Seq<char> {
        csi() + "7m"@
    }

    fn value(&self) -> (r: String) {
        let mut csi: String = EscapeANSI.combine(&CtrlSeqANSI).value();
        push_str(&mut csi, "7m");
        csi
    }
}

impl InverseOnANSI {
    /// This sequence followed by `other`.
    pub fn combine<T: ANSICode>(&self, other: &T) -> (r: CombinedANSI)
        ensures
            r.text() == self.spec_value() + other.spec_value(),
    {
        let mut s: String = self.value();
        let o: String = other.value();
        push_str(&mut s, o.as_str());
        CombinedANSI::from_text(s)
    }
}

/// Switches off inverse colours.
#[derive(Copy, Clone)]
pub struct InverseOffANSI;

impl ANSICode for InverseOffANSI {
    open spec fn spec_value(&self) -> Seq<char> {
        csi() + "27m"@
    }

    fn value(&self) -> (r: String) {
        let mut csi: String = EscapeANSI.combine(&CtrlSeqANSI).value();
        push_str(&mut csi, "27m");
        csi
    }
}

impl InverseOffANSI {
    /// This sequence followed by `other`.
    pub fn combine<T: ANSICode>(&self, other: &T) -> (r: CombinedANSI)
        ensures
            r.text() == self.spec_value() + other.spec_value(),
    {
        let mut s: String = self.value();
        let o: String = other.value();
        push_str(&mut s, o.as_str());
        CombinedANSI::from_text(s)
    }
}

/// Shows the cursor.
#[derive(Copy, Clone)]
pub struct CursorOnANSI;

impl ANSICode for CursorOnANSI {
    open spec fn spec_value(&self) -> Seq<char> {
        csi() + "?25h"@
    }

    fn value(&self) -> (r: String) {
        let mut csi: String = EscapeANSI.combine(&CtrlSeqANSI).value();
        push_str(&mut csi, "?25h");
        csi
    }
}

impl CursorOnANSI {
    /// This sequence followed by `other`.
    pub fn combine<T: ANSICode>(&self, other: &T) -> (r: CombinedANSI)
        ensures
            r.text() == self.spec_value() + other.spec_value(),
    {
        let mut s: String = self.value();
        let o: String = other.value();
        push_str(&mut s, o.as_str());
        CombinedANSI::from_text(s)
    }
}

/// Hides the cursor.
#[derive(Copy, Clone)]
pub struct CursorOffANSI;

impl ANSICode for CursorOffANSI {
    open spec fn spec_value(&self) -> Seq<char> {
        csi() + "?25l"@
    }

    fn value(&self) -> (r: String) {
        let mut csi: String = EscapeANSI.combine(&CtrlSeqANSI).value();
        push_str(&mut csi, "?25l");
        csi
    }
}

impl CursorOffANSI {
    /// This sequence followed by `other`.
    pub fn combine<T: ANSICode>(&self, other: &T) -> (r: CombinedANSI)
        ensures
            r.text() == self.spec_value() + other.spec_value(),
    {
        let mut s: String = self.value();
        let o: String = other.value();
        push_str(&mut s, o.as_str());
        CombinedANSI::from_text(s)
    }
}

/// Enables line wrapping.
#[derive(Copy, Clone)]
pub struct LineWrapOnANSI;

impl ANSICode for LineWrapOnANSI {
    open spec fn spec_value(&self) -> Seq<char> {
        csi() + "?7h"@
    }

    fn value(&self) -> (r: String) {
        let mut csi: String = EscapeANSI.combine(&CtrlSeqANSI).value();
        push_str(&mut csi, "?7h");
        csi
    }
}

impl LineWrapOnANSI {
    /// This sequence followed by `other`.
    pub fn combine<T: ANSICode>(&self, other: &T) -> (r: CombinedANSI)
        ensures
            r.text() == self.spec_value() + other.spec_value(),
    {
        let mut s: String = self.value();
        let o: String = other.value();
        push_str(&mut s, o.as_str());
        CombinedANSI::from_text(s)
    }
}

/// Disables line wrapping.
#[derive(Copy, Clone)]
pub struct LineWrapOffANSI;

impl ANSICode for LineWrapOffANSI {
    open spec fn spec_value(&self) -> Seq<char> {
        csi() + "?7l"@
    }

    fn value(&self) -> (r: String) {
        let mut csi: String = EscapeANSI.combine(&CtrlSeqANSI).value();
        push_str(&mut csi, "?7l");
        csi
    }
}

impl LineWrapOffANSI {
    /// This sequence followed by `other`.
    pub fn combine<T: ANSICode>(&self, other: &T) -> (r: CombinedANSI)
        ensures
            r.text() == self.spec_value() + other.spec_value(),
    {
        let mut s: String = self.value();
        let o: String = other.value();
        push_str(&mut s, o.as_str());
        CombinedANSI::from_text(s)
    }
}

/// Law: each sequence built from the escape character and `[` is the same
/// text as the literal sequence of the same name in `general::terminal`.
pub proof fn law_sequences_agree_with_literals()
    ensures
        ResetANSI.spec_value() == crate::general::terminal::ResetANSI.spec_value(),
        BlackANSI.spec_value() == crate::general::terminal::BlackANSI.spec_value(),
        RedANSI.spec_value() == crate::general::terminal::RedANSI.spec_value(),
        GreenANSI.spec_value() == crate::general::terminal::GreenANSI.spec_value(),
        YellowANSI.spec_value() == crate::general::terminal::YellowANSI.spec_value(),
        BlueANSI.spec_value() == crate::general::terminal::BlueANSI.spec_value(),
        MagentaANSI.spec_value() == crate::general::terminal::MagentaANSI.spec_value(),
        CyanANSI.spec_value() == crate::general::terminal::CyanANSI.spec_value(),
        WhiteANSI.spec_value() == crate::general::terminal::WhiteANSI.spec_value(),
        BlackBackgroundANSI.spec_value() == crate::general::terminal::BlackBackgroundANSI.spec_value(),
        RedBackgroundANSI.spec_value() == crate::general::terminal::RedBackgroundANSI.spec_value(),
        GreenBackgroundANSI.spec_value() == crate::general::terminal::GreenBackgroundANSI.spec_value(),
        YellowBackgroundANSI.spec_value() == crate::general::terminal::YellowBackgroundANSI.spec_value(),
        BlueBackgroundANSI.spec_value() == crate::general::terminal::BlueBackgroundANSI.spec_value(),
        MagentaBackgroundANSI.spec_value() == crate::general::terminal::MagentaBackgroundANSI.spec_value(),
        CyanBackgroundANSI.spec_value() == crate::general::terminal::CyanBackgroundANSI.spec_value(),
        WhiteBackgroundANSI.spec_value() == crate::general::terminal::WhiteBackgroundANSI.spec_value(),
        UnderlineOnANSI.spec_value() == crate::general::terminal::UnderlineANSI.spec_value(),
        ItalicOnANSI.spec_value() == crate::general::terminal::ItalicANSI.spec_value(),
        BoldOnANSI.spec_value() == crate::general::terminal::BoldANSI.spec_value(),
        BlinkOnANSI.spec_value() == crate::general::terminal::BlinkANSI.spec_value(),
{
    reveal_strlit("\x1B");
    reveal_strlit("\x5B");
    reveal_strlit("0m");
    reveal_strlit("\x1B[0m");
    reveal_strlit("30m");
    reveal_strlit("\x1B[30m");
    reveal_strlit("31m");
    reveal_strlit("\x1B[31m");
    reveal_strlit("32m");
    reveal_strlit("\x1B[32m");
    reveal_strlit("33m");
    reveal_strlit("\x1B[33m");
    reveal_strlit("34m");
    reveal_strlit("\x1B[34m");
    reveal_strlit("35m");
    reveal_strlit("\x1B[35m");
    reveal_strlit("36m");
    reveal_strlit("\x1B[36m");
    reveal_strlit("37m");
    reveal_strlit("\x1B[37m");
    reveal_strlit("40m");
    reveal_strlit("\x1B[40m");
    reveal_strlit("41m");
    reveal_strlit("\x1B[41m");
    reveal_strlit("42m");
    reveal_strlit("\x1B[42m");
    reveal_strlit("43m");
    reveal_strlit("\x1B[43m");
    reveal_strlit("44m");
    reveal_strlit("\x1B[44m");
    reveal_strlit("45m");
    reveal_strlit("\x1B[45m");
    reveal_strlit("46m");
    reveal_strlit("\x1B[46m");
    reveal_strlit("47m");
    reveal_strlit("\x1B[47m");
    reveal_strlit("4m");
    reveal_strlit("\x1B[4m");
    reveal_strlit("3m");
    reveal_strlit("\x1B[3m");
    reveal_strlit("1m");
    reveal_strlit("\x1B[1m");
    reveal_strlit("5m");
    reveal_strlit("\x1B[5m");
}

} // verus!
