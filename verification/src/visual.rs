//! Visual attribute lists: what a client asks of a pixel format.
//!
//! A list is a run of 32-bit words. A flag attribute is its key alone; a
//! value attribute is its key and, in the next word, its value. The key `0`
//! ends the list.

use vstd::prelude::*;
use crate::error::GlxError;

verus! {

/// The key that ends a list.
pub const GLX_NONE: i32 = 0;
pub const GLX_USE_GL: i32 = 0x0001;
pub const GLX_BUFFER_SIZE: i32 = 0x0002;
pub const GLX_LEVEL: i32 = 0x0003;
pub const GLX_RGBA: i32 = 0x0004;
pub const GLX_DOUBLEBUFFER: i32 = 0x0005;
pub const GLX_STEREO: i32 = 0x0006;
pub const GLX_AUX_BUFFERS: i32 = 0x0007;
pub const GLX_RED_SIZE: i32 = 0x0008;
pub const GLX_GREEN_SIZE: i32 = 0x0009;
pub const GLX_BLUE_SIZE: i32 = 0x000a;
pub const GLX_ALPHA_SIZE: i32 = 0x000b;
pub const GLX_DEPTH_SIZE: i32 = 0x000c;
pub const GLX_STENCIL_SIZE: i32 = 0x000d;
pub const GLX_ACCUM_RED_SIZE: i32 = 0x000e;
pub const GLX_ACCUM_GREEN_SIZE: i32 = 0x000f;
pub const GLX_ACCUM_BLUE_SIZE: i32 = 0x0010;
pub const GLX_ACCUM_ALPHA_SIZE: i32 = 0x0011;
pub const GLX_FBCONFIG_ID: i32 = 0x8013;

/// The attributes that are present or absent.
#[derive(Clone, Copy, Debug, PartialEq, Eq, Structural)]
pub enum FlagKey {
    UseGl,
    Rgba,
    Doublebuffer,
    Stereo,
}

/// The attributes that carry a value.
#[derive(Clone, Copy, Debug, PartialEq, Eq, Structural)]
pub enum ValueKey {
    BufferSize,
    Level,
    AuxBuffers,
    RedSize,
    GreenSize,
    BlueSize,
    AlphaSize,
    DepthSize,
    StencilSize,
    AccumRedSize,
    AccumGreenSize,
    AccumBlueSize,
    AccumAlphaSize,
    FbconfigId,
}

/// A key of the supported set.
#[derive(Clone, Copy, Debug, PartialEq, Eq, Structural)]
pub enum AttribKey {
    Flag(FlagKey),
    Value(ValueKey),
}

/// The attribute that the word `key` names, if it names one of the supported
/// set.
pub open spec fn key_of(key: i32) -> Option<AttribKey> {
    if key == GLX_USE_GL {
        Some(AttribKey::Flag(FlagKey::UseGl))
    }     else if key == GLX_BUFFER_SIZE {
        Some(AttribKey::Value(ValueKey::BufferSize))
    }     else if key == GLX_LEVEL {
        Some(AttribKey::Value(ValueKey::Level))
    }     else if key == GLX_RGBA {
        Some(AttribKey::Flag(FlagKey::Rgba))
    }     else if key == GLX_DOUBLEBUFFER {
        Some(AttribKey::Flag(FlagKey::Doublebuffer))
    }     else if key == GLX_STEREO {
        Some(AttribKey::Flag(FlagKey::Stereo))
    }     else if key == GLX_AUX_BUFFERS {
        Some(AttribKey::Value(ValueKey::AuxBuffers))
    }     else if key == GLX_RED_SIZE {
        Some(AttribKey::Value(ValueKey::RedSize))
    }     else if key == GLX_GREEN_SIZE {
        Some(AttribKey::Value(ValueKey::GreenSize))
    }     else if key == GLX_BLUE_SIZE {
        Some(AttribKey::Value(ValueKey::BlueSize))
    }     else if key == GLX_ALPHA_SIZE {
        Some(AttribKey::Value(ValueKey::AlphaSize))
    }     else if key == GLX_DEPTH_SIZE {
        Some(AttribKey::Value(ValueKey::DepthSize))
    }     else if key == GLX_STENCIL_SIZE {
        Some(AttribKey::Value(ValueKey::StencilSize))
    }     else if key == GLX_ACCUM_RED_SIZE {
        Some(AttribKey::Value(ValueKey::AccumRedSize))
    }     else if key == GLX_ACCUM_GREEN_SIZE {
        Some(AttribKey::Value(ValueKey::AccumGreenSize))
    }     else if key == GLX_ACCUM_BLUE_SIZE {
        Some(AttribKey::Value(ValueKey::AccumBlueSize))
    }     else if key == GLX_ACCUM_ALPHA_SIZE {
        Some(AttribKey::Value(ValueKey::AccumAlphaSize))
    }     else if key == GLX_FBCONFIG_ID {
        Some(AttribKey::Value(ValueKey::FbconfigId))
    } else {
        None
    }
}

/// The attribute that the word `key` names, if it names one of the supported
/// set.
pub fn classify(key: i32) -> (k: Option<AttribKey>)
    ensures
        k == key_of(key),
{
    if key == GLX_USE_GL {
        Some(AttribKey::Flag(FlagKey::UseGl))
    }     else if key == GLX_BUFFER_SIZE {
        Some(AttribKey::Value(ValueKey::BufferSize))
    }     else if key == GLX_LEVEL {
        Some(AttribKey::Value(ValueKey::Level))
    }     else if key == GLX_RGBA {
        Some(AttribKey::Flag(FlagKey::Rgba))
    }     else if key == GLX_DOUBLEBUFFER {
        Some(AttribKey::Flag(FlagKey::Doublebuffer))
    }     else if key == GLX_STEREO {
        Some(AttribKey::Flag(FlagKey::Stereo))
    }     else if key == GLX_AUX_BUFFERS {
        Some(AttribKey::Value(ValueKey::AuxBuffers))
    }     else if key == GLX_RED_SIZE {
        Some(AttribKey::Value(ValueKey::RedSize))
    }     else if key == GLX_GREEN_SIZE {
        Some(AttribKey::Value(ValueKey::GreenSize))
    }     else if key == GLX_BLUE_SIZE {
        Some(AttribKey::Value(ValueKey::BlueSize))
    }     else if key == GLX_ALPHA_SIZE {
        Some(AttribKey::Value(ValueKey::AlphaSize))
    }     else if key == GLX_DEPTH_SIZE {
        Some(AttribKey::Value(ValueKey::DepthSize))
    }     else if key == GLX_STENCIL_SIZE {
        Some(AttribKey::Value(ValueKey::StencilSize))
    }     else if key == GLX_ACCUM_RED_SIZE {
        Some(AttribKey::Value(ValueKey::AccumRedSize))
    }     else if key == GLX_ACCUM_GREEN_SIZE {
        Some(AttribKey::Value(ValueKey::AccumGreenSize))
    }     else if key == GLX_ACCUM_BLUE_SIZE {
        Some(AttribKey::Value(ValueKey::AccumBlueSize))
    }     else if key == GLX_ACCUM_ALPHA_SIZE {
        Some(AttribKey::Value(ValueKey::AccumAlphaSize))
    }     else if key == GLX_FBCONFIG_ID {
        Some(AttribKey::Value(ValueKey::FbconfigId))
    } else {
        None
    }
}

/// The attributes of a visual, each with the value that the list gave it
/// last.
#[derive(Clone, Copy, Debug, PartialEq, Eq, Structural)]
pub struct VisualAttribs {
    pub use_gl: bool,
    pub buffer_size: i32,
    pub level: i32,
    pub rgba: bool,
    pub doublebuffer: bool,
    pub stereo: bool,
    pub aux_buffers: i32,
    pub red_size: i32,
    pub green_size: i32,
    pub blue_size: i32,
    pub alpha_size: i32,
    pub depth_size: i32,
    pub stencil_size: i32,
    pub accum_red_size: i32,
    pub accum_green_size: i32,
    pub accum_blue_size: i32,
    pub accum_alpha_size: i32,
    pub fbconfig_id: i32,
}

impl VisualAttribs {
    /// What a visual has before a list says anything: it is usable with GL,
    /// every other flag is off and every value is zero.
    pub open spec fn default_spec() -> VisualAttribs {
        VisualAttribs {
            use_gl: true,
            buffer_size: 0,
            level: 0,
            rgba: false,
            doublebuffer: false,
            stereo: false,
            aux_buffers: 0,
            red_size: 0,
            green_size: 0,
            blue_size: 0,
            alpha_size: 0,
            depth_size: 0,
            stencil_size: 0,
            accum_red_size: 0,
            accum_green_size: 0,
            accum_blue_size: 0,
            accum_alpha_size: 0,
            fbconfig_id: 0,
        }
    }

    /// The attributes with the flag `key` on.
    pub open spec fn with_flag(self, key: FlagKey) -> VisualAttribs {
        match key {
            FlagKey::UseGl => VisualAttribs { use_gl: true, ..self },
            FlagKey::Rgba => VisualAttribs { rgba: true, ..self },
            FlagKey::Doublebuffer => VisualAttribs { doublebuffer: true, ..self },
            FlagKey::Stereo => VisualAttribs { stereo: true, ..self },
        }
    }

    /// The attributes with `value` for `key`.
    pub open spec fn with_value(self, key: ValueKey, value: i32) -> VisualAttribs {
        match key {
            ValueKey::BufferSize => VisualAttribs { buffer_size: value, ..self },
            ValueKey::Level => VisualAttribs { level: value, ..self },
            ValueKey::AuxBuffers => VisualAttribs { aux_buffers: value, ..self },
            ValueKey::RedSize => VisualAttribs { red_size: value, ..self },
            ValueKey::GreenSize => VisualAttribs { green_size: value, ..self },
            ValueKey::BlueSize => VisualAttribs { blue_size: value, ..self },
            ValueKey::AlphaSize => VisualAttribs { alpha_size: value, ..self },
            ValueKey::DepthSize => VisualAttribs { depth_size: value, ..self },
            ValueKey::StencilSize => VisualAttribs { stencil_size: value, ..self },
            ValueKey::AccumRedSize => VisualAttribs { accum_red_size: value, ..self },
            ValueKey::AccumGreenSize => VisualAttribs { accum_green_size: value, ..self },
            ValueKey::AccumBlueSize => VisualAttribs { accum_blue_size: value, ..self },
            ValueKey::AccumAlphaSize => VisualAttribs { accum_alpha_size: value, ..self },
            ValueKey::FbconfigId => VisualAttribs { fbconfig_id: value, ..self },
        }
    }

    /// Turns the flag `key` on.
    pub fn set_flag(&mut self, key: FlagKey)
        ensures
            *final(self) == old(self).with_flag(key),
    {
        match key {
            FlagKey::UseGl => {
                self.use_gl = true;
            },
            FlagKey::Rgba => {
                self.rgba = true;
            },
            FlagKey::Doublebuffer => {
                self.doublebuffer = true;
            },
            FlagKey::Stereo => {
                self.stereo = true;
            },
        }
    }

    /// Gives `key` the value `value`.
    pub fn set_value(&mut self, key: ValueKey, value: i32)
        ensures
            *final(self) == old(self).with_value(key, value),
    {
        match key {
            ValueKey::BufferSize => {
                self.buffer_size = value;
            },
            ValueKey::Level => {
                self.level = value;
            },
            ValueKey::AuxBuffers => {
                self.aux_buffers = value;
            },
            ValueKey::RedSize => {
                self.red_size = value;
            },
            ValueKey::GreenSize => {
                self.green_size = value;
            },
            ValueKey::BlueSize => {
                self.blue_size = value;
            },
            ValueKey::AlphaSize => {
                self.alpha_size = value;
            },
            ValueKey::DepthSize => {
                self.depth_size = value;
            },
            ValueKey::StencilSize => {
                self.stencil_size = value;
            },
            ValueKey::AccumRedSize => {
                self.accum_red_size = value;
            },
            ValueKey::AccumGreenSize => {
                self.accum_green_size = value;
            },
            ValueKey::AccumBlueSize => {
                self.accum_blue_size = value;
            },
            ValueKey::AccumAlphaSize => {
                self.accum_alpha_size = value;
            },
            ValueKey::FbconfigId => {
                self.fbconfig_id = value;
            },
        }
    }
}

impl Default for VisualAttribs {
    fn default() -> (a: VisualAttribs)
        ensures
            a == VisualAttribs::default_spec(),
    {
        VisualAttribs {
            use_gl: true,
            buffer_size: 0,
            level: 0,
            rgba: false,
            doublebuffer: false,
            stereo: false,
            aux_buffers: 0,
            red_size: 0,
            green_size: 0,
            blue_size: 0,
            alpha_size: 0,
            depth_size: 0,
            stencil_size: 0,
            accum_red_size: 0,
            accum_green_size: 0,
            accum_blue_size: 0,
            accum_alpha_size: 0,
            fbconfig_id: 0,
        }
    }
}

/// What the next word of a list is.
#[derive(Clone, Copy, Debug, PartialEq, Eq, Structural)]
pub enum Expect {
    /// A key, or the end of the list.
    Key,
    /// The value of the key that came before.
    Value(ValueKey),
    /// Nothing: the list has ended.
    End,
}

/// A reader of an attribute list, one word at a time.
#[derive(Clone, Copy, Debug, PartialEq, Eq, Structural)]
pub struct AttribReader {
    /// What the words read so far have asked for.
    pub attribs: VisualAttribs,
    /// What the next word is.
    pub expect: Expect,
}

impl AttribReader {
    /// The reader before the first word.
    pub open spec fn start() -> AttribReader {
        AttribReader { attribs: VisualAttribs::default_spec(), expect: Expect::Key }
    }

    /// The reader after `word`, or the reason why `word` is refused.
    ///
    /// Where a key is due: `0` ends the list, a flag is turned on, the key of
    /// a value makes its value due, and any other word is outside the
    /// supported set. Where a value is due, every word is one. Behind the end
    /// of the list no word is read.
    pub open spec fn fed(self, word: i32) -> Result<AttribReader, GlxError> {
        match self.expect {
            Expect::End => Ok(self),
            Expect::Value(key) => Ok(
                AttribReader { attribs: self.attribs.with_value(key, word), expect: Expect::Key },
            ),
            Expect::Key => if word == GLX_NONE {
                Ok(AttribReader { attribs: self.attribs, expect: Expect::End })
            } else {
                match key_of(word) {
                    Some(AttribKey::Flag(key)) => Ok(
                        AttribReader { attribs: self.attribs.with_flag(key), expect: Expect::Key },
                    ),
                    Some(AttribKey::Value(key)) => Ok(
                        AttribReader { attribs: self.attribs, expect: Expect::Value(key) },
                    ),
                    None => Err(GlxError::UnsupportedCapability),
                }
            },
        }
    }

    /// The reader after all of `words` in order, or the reason why the first
    /// word that is refused is refused.
    pub open spec fn fed_all(self, words: Seq<i32>) -> Result<AttribReader, GlxError>
        decreases words.len(),
    {
        if words.len() == 0 {
            Ok(self)
        } else {
            match self.fed_all(words.drop_last()) {
                Ok(reader) => reader.fed(words.last()),
                Err(e) => Err(e),
            }
        }
    }

    /// The reader before the first word.
    pub fn new() -> (r: AttribReader)
        ensures
            r == AttribReader::start(),
    {
        AttribReader { attribs: VisualAttribs::default(), expect: Expect::Key }
    }

    /// Whether the list has ended.
    pub fn is_complete(&self) -> (b: bool)
        ensures
            b == (self.expect == Expect::End),
    {
        match self.expect {
            Expect::End => true,
            _ => false,
        }
    }

    /// Reads one word. A word that is refused leaves the reader as it was.
    pub fn feed(&mut self, word: i32) -> (r: Result<(), GlxError>)
        ensures
            match r {
                Ok(_) => old(self).fed(word) == Ok::<AttribReader, GlxError>(*final(self)),
                Err(e) => old(self).fed(word) == Err::<AttribReader, GlxError>(e) && *final(self)
                    == *old(self),
            },
    {
        match self.expect {
            Expect::End => Ok(()),
            Expect::Value(key) => {
                self.attribs.set_value(key, word);
                self.expect = Expect::Key;
                Ok(())
            },
            Expect::Key => {
                if word == GLX_NONE {
                    self.expect = Expect::End;
                    Ok(())
                } else {
                    match classify(word) {
                        Some(AttribKey::Flag(key)) => {
                            self.attribs.set_flag(key);
                            Ok(())
                        },
                        Some(AttribKey::Value(key)) => {
                            self.expect = Expect::Value(key);
                            Ok(())
                        },
                        None => Err(GlxError::UnsupportedCapability),
                    }
                }
            },
        }
    }

    /// Reads `words` in order, up to the first word that is refused. The
    /// reader is then as the words before that one have left it.
    pub fn feed_all(&mut self, words: &[i32]) -> (r: Result<(), GlxError>)
        ensures
            match r {
                Ok(_) => old(self).fed_all(words@) == Ok::<AttribReader, GlxError>(*final(self)),
                Err(e) => {
                    &&& old(self).fed_all(words@) == Err::<AttribReader, GlxError>(e)
                    &&& exists|n: int|
                        0 <= n < words@.len() && #[trigger] old(self).fed_all(words@.take(n)) == Ok::<
                            AttribReader,
                            GlxError,
                        >(*final(self)) && final(self).fed(words@[n]) is Err
                },
            },
    {
        let mut i: usize = 0;
        while i < words.len()
            invariant
                i <= words.len(),
                old(self).fed_all(words@.take(i as int)) == Ok::<AttribReader, GlxError>(*self),
            decreases words.len() - i,
        {
            proof {
                assert(words@.take(i + 1).drop_last() =~= words@.take(i as int));
            }
            match self.feed(words[i]) {
                Ok(_) => {},
                Err(e) => {
                    proof {
                        lemma_fed_all_stays_refused(*old(self), words@, i + 1);
                    }
                    return Err(e);
                },
            }
            i += 1;
        }
        assert(words@.take(words.len() as int) =~= words@);
        Ok(())
    }
}

/// Once a word is refused, the list is: a longer list fails as its prefix
/// did.
pub proof fn lemma_fed_all_stays_refused(reader: AttribReader, words: Seq<i32>, n: int)
    requires
        0 <= n <= words.len(),
        reader.fed_all(words.take(n)) is Err,
    ensures
        reader.fed_all(words) == reader.fed_all(words.take(n)),
    decreases words.len(),
{
    if n == words.len() {
        assert(words.take(n) =~= words);
    } else {
        assert(words.drop_last().take(n) =~= words.take(n));
        lemma_fed_all_stays_refused(reader, words.drop_last(), n);
    }
}

/// Reads a whole list. Returns the attributes if the list ends within
/// `words`, nothing if `words` ends before the list does, and
/// `UnsupportedCapability` if a key of the list is outside the supported
/// set.
pub fn read_attrib_list(words: &[i32]) -> (r: Result<Option<VisualAttribs>, GlxError>)
    ensures
        match AttribReader::start().fed_all(words@) {
            Ok(reader) => r == Ok::<Option<VisualAttribs>, GlxError>(
                if reader.expect == Expect::End {
                    Some(reader.attribs)
                } else {
                    None
                },
            ),
            Err(e) => r == Err::<Option<VisualAttribs>, GlxError>(e),
        },
{
    let mut reader = AttribReader::new();
    match reader.feed_all(words) {
        Err(e) => Err(e),
        Ok(_) => if reader.is_complete() {
            Ok(Some(reader.attribs))
        } else {
            Ok(None)
        },
    }
}

} // verus!
