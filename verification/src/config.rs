//! The configuration of a decoder.
//!
//! The engine holds the parameters. This module gives the engine's answers on
//! them a type, checks the strings that go to the engine, and keeps track of
//! who owns the engine's configuration object.

use vstd::prelude::*;
use vstd::string::StringSliceAdditionalSpecFns;
use vstd::utf8::{decode_utf8, valid_utf8};
use crate::decoder::Decoder;
use crate::error::Error;
use crate::resource::ResourceHandle;
use crate::text::{decode_text, has_nul};

verus! {

/// The type of a configuration parameter.
#[derive(Clone, Copy, Debug, PartialEq, Eq, Structural)]
pub enum ParamType {
    Integer,
    Boolean,
    Float,
    String,
}

/// The bit of a type code that marks a required parameter.
pub const PARAM_REQUIRED: i32 = 1;

/// The bits of a type code that hold the type.
pub const PARAM_TYPE_MASK: i32 = 30;

/// The type that the type bits of a code stand for: exactly one of the bits
/// for integer (2), float (4), string (8) and boolean (16) must be set.
pub open spec fn param_type_of(code: i32) -> Option<ParamType> {
    let bits = code & PARAM_TYPE_MASK;
    if bits == 2 {
        Some(ParamType::Integer)
    } else if bits == 4 {
        Some(ParamType::Float)
    } else if bits == 8 {
        Some(ParamType::String)
    } else if bits == 16 {
        Some(ParamType::Boolean)
    } else {
        None
    }
}

/// Whether a type code marks a required parameter.
pub open spec fn param_required(code: i32) -> bool {
    code & PARAM_REQUIRED == 1
}

/// What reading a header from a sound file into the configuration comes to.
pub open spec fn soundfile_result(path: &str, name: Option<&str>, opened: bool, status: i32)
    -> Result<(), Error> {
    if path.spec_bytes().contains(0u8) || (name matches Some(n) && n.spec_bytes().contains(0u8)) {
        Err(Error::InvalidString)
    } else if !opened {
        Err(Error::IOFailure)
    } else if status < 0 {
        Err(Error::InvalidConfig)
    } else {
        Ok(())
    }
}

/// A configuration object of the engine.
pub struct Config {
    handle: ResourceHandle,
}

impl Config {
    /// The handle on the engine's configuration.
    pub closed spec fn handle(&self) -> ResourceHandle {
        self.handle
    }

    /// Records a configuration that the engine has created. `resource` is
    /// what the engine's constructor returned, `None` for its null result.
    pub fn new(resource: Option<usize>) -> (r: Result<Config, Error>)
        ensures
            resource is None ==> r is Err && r->Err_0 == Error::InitializationFailure,
            resource matches Some(id) ==> (r matches Ok(c) && c.handle().id() == id
                && c.handle().owns()),
    {
        match ResourceHandle::acquire(resource) {
            Ok(handle) => Ok(Config { handle }),
            Err(e) => Err(e),
        }
    }

    /// The configuration of a decoder, which the decoder keeps owning.
    pub fn from_decoder(resource: usize) -> (c: Config)
        ensures
            c.handle().id() == resource,
            !c.handle().owns(),
    {
        Config { handle: ResourceHandle::borrowed(resource) }
    }

    /// Shares the engine's configuration: returns a configuration that owns
    /// one more reference, which the caller has taken in the engine. This
    /// configuration stays as it was, its own reference included.
    pub fn retain(&mut self) -> (c: Config)
        ensures
            *final(self) == *old(self),
            c.handle().id() == old(self).handle().id(),
            c.handle().owns(),
    {
        Config { handle: self.handle.retain() }
    }

    /// Lets the configuration go and says which resource the engine must
    /// release: the configuration, if and only if this object owns a
    /// reference to it.
    pub fn release(self) -> (r: Option<usize>)
        ensures
            self.handle().owns() ==> r == Some(self.handle().id()),
            !self.handle().owns() ==> r is None,
    {
        self.handle.release()
    }

    /// Records the decoder that the engine has created with this
    /// configuration. The decoder takes the configuration over, so this
    /// object no longer releases it, whether or not the decoder came to be.
    pub fn init_decoder(&mut self, resource: Option<usize>) -> (r: Result<Decoder, Error>)
        ensures
            final(self).handle().id() == old(self).handle().id(),
            !final(self).handle().owns(),
            resource is None ==> r is Err && r->Err_0 == Error::InitializationFailure,
            resource matches Some(id) ==> (r matches Ok(d) && d.wf() && d.handle().id() == id
                && d.handle().owns() && d@.searches.len() == 0 && d@.active is None && d@.utt
                == crate::decoder::UtteranceState::Idle && !d@.settled),
    {
        self.handle.set_retained(true);
        Decoder::new(resource)
    }

    /// Records the configuration that the engine has parsed from text in its
    /// relaxed JSON. Text with a NUL byte cannot be handed to the engine;
    /// `resource` is what the engine's parser returned, `None` for a failure.
    pub fn from_json(json: &str, resource: Option<usize>) -> (r: Result<Config, Error>)
        ensures
            json.spec_bytes().contains(0u8) ==> r is Err && r->Err_0 == Error::InvalidString,
            !json.spec_bytes().contains(0u8) && resource is None ==> r is Err && r->Err_0
                == Error::InvalidConfig,
            !json.spec_bytes().contains(0u8) ==> (resource matches Some(id) ==> (r matches Ok(c)
                && c.handle().id() == id && c.handle().owns())),
    {
        if has_nul(json) {
            return Err(Error::InvalidString);
        }
        match resource {
            Some(id) => Config::new(Some(id)),
            None => Err(Error::InvalidConfig),
        }
    }

    /// Takes over the configuration after the engine has parsed more text
    /// into it. `resource` is what the engine's parser returned, `None` for
    /// a failure, which leaves this object as it was.
    pub fn extend_from_json(&mut self, json: &str, resource: Option<usize>) -> (r: Result<
        (),
        Error,
    >)
        ensures
            final(self).handle().owns() == old(self).handle().owns(),
            json.spec_bytes().contains(0u8) ==> r is Err && r->Err_0 == Error::InvalidString
                && final(self).handle() == old(self).handle(),
            !json.spec_bytes().contains(0u8) && resource is None ==> r is Err && r->Err_0
                == Error::InvalidConfig && final(self).handle() == old(self).handle(),
            !json.spec_bytes().contains(0u8) ==> (resource matches Some(id) ==> r is Ok && final(self).handle().id() == id),
    {
        if has_nul(json) {
            return Err(Error::InvalidString);
        }
        match resource {
            Some(id) => {
                let retained = self.handle.is_retained();
                let mut handle = ResourceHandle::borrowed(id);
                handle.set_retained(retained);
                self.handle = handle;
                Ok(())
            },
            None => Err(Error::InvalidConfig),
        }
    }

    /// The configuration as JSON, from the bytes that the engine has written;
    /// `None` stands for the engine's failure to write any.
    pub fn serialize_json(&self, raw: Option<&[u8]>) -> (r: Result<String, Error>)
        ensures
            raw is None ==> r is Err && r->Err_0 == Error::EngineFailure,
            raw matches Some(b) ==> (valid_utf8(b@) ==> (r matches Ok(s) && s@ == decode_utf8(
                b@,
            ))),
            raw matches Some(b) ==> (!valid_utf8(b@) ==> r is Err && r->Err_0
                == Error::InvalidString),
    {
        match raw {
            None => Err(Error::EngineFailure),
            Some(b) => decode_text(b),
        }
    }

    /// The type of a parameter and whether it is required, from the type
    /// code that the engine gives for its name. The code of an unknown
    /// parameter is zero.
    pub fn typeof_param(&self, name: &str, code: i32) -> (r: Result<(ParamType, bool), Error>)
        ensures
            name.spec_bytes().contains(0u8) ==> r is Err && r->Err_0 == Error::InvalidString,
            !name.spec_bytes().contains(0u8) && (code == 0 || param_type_of(code) is None) ==> r is Err
                && r->Err_0 == Error::InvalidConfig,
            !name.spec_bytes().contains(0u8) && code != 0 ==> (param_type_of(code) matches Some(t)
                ==> r is Ok && r->Ok_0 == (t, param_required(code))),
    {
        if has_nul(name) {
            return Err(Error::InvalidString);
        }
        if code == 0 {
            return Err(Error::InvalidConfig);
        }
        let required = (code & PARAM_REQUIRED) == 1;
        let bits = code & PARAM_TYPE_MASK;
        if bits == 2 {
            Ok((ParamType::Integer, required))
        } else if bits == 4 {
            Ok((ParamType::Float, required))
        } else if bits == 8 {
            Ok((ParamType::String, required))
        } else if bits == 16 {
            Ok((ParamType::Boolean, required))
        } else {
            Err(Error::InvalidConfig)
        }
    }

    /// Whether the engine found the configuration valid. `status` is the
    /// engine's answer, zero for a configuration that names at most one
    /// source of searches.
    pub fn is_valid(&self, status: i32) -> (b: bool)
        ensures
            b == (status == 0),
    {
        status == 0
    }

    /// A boolean parameter, from the engine's answer for its name: 1 for
    /// true, 0 for false, and -1 for a parameter that is no boolean or
    /// integer.
    pub fn get_bool(&self, name: &str, value: i32) -> (r: Result<bool, Error>)
        ensures
            name.spec_bytes().contains(0u8) ==> r is Err && r->Err_0 == Error::InvalidString,
            !name.spec_bytes().contains(0u8) && value == -1 ==> r is Err && r->Err_0
                == Error::InvalidConfig,
            !name.spec_bytes().contains(0u8) && value != -1 ==> r is Ok && r->Ok_0 == (value == 1),
    {
        if has_nul(name) {
            return Err(Error::InvalidString);
        }
        if value == -1 {
            Err(Error::InvalidConfig)
        } else {
            Ok(value == 1)
        }
    }

    /// What to hand to the engine to set a boolean parameter: 1 for true and
    /// 0 for false.
    pub fn set_bool(&mut self, name: &str, value: bool) -> (r: Result<i32, Error>)
        ensures
            final(self).handle() == old(self).handle(),
            name.spec_bytes().contains(0u8) ==> r is Err && r->Err_0 == Error::InvalidString,
            !name.spec_bytes().contains(0u8) ==> r is Ok && r->Ok_0 == (if value {
                1i32
            } else {
                0i32
            }),
    {
        if has_nul(name) {
            return Err(Error::InvalidString);
        }
        Ok(
            if value {
                1
            } else {
                0
            },
        )
    }

    /// An integer parameter, from the engine's answer for its name.
    pub fn get_int(&self, name: &str, value: i64) -> (r: Result<i64, Error>)
        ensures
            name.spec_bytes().contains(0u8) ==> r is Err && r->Err_0 == Error::InvalidString,
            !name.spec_bytes().contains(0u8) ==> r is Ok && r->Ok_0 == value,
    {
        if has_nul(name) {
            return Err(Error::InvalidString);
        }
        Ok(value)
    }

    /// Checks the name of an integer parameter that is to be set.
    pub fn set_int(&mut self, name: &str, value: i64) -> (r: Result<(), Error>)
        ensures
            final(self).handle() == old(self).handle(),
            name.spec_bytes().contains(0u8) ==> r is Err && r->Err_0 == Error::InvalidString,
            !name.spec_bytes().contains(0u8) ==> r is Ok,
    {
        if has_nul(name) {
            return Err(Error::InvalidString);
        }
        Ok(())
    }

    /// A string parameter, from the bytes that the engine gives for its
    /// name; `None` stands for a parameter that is no string or is not set.
    pub fn get_str(&self, name: &str, raw: Option<&[u8]>) -> (r: Result<String, Error>)
        ensures
            name.spec_bytes().contains(0u8) ==> r is Err && r->Err_0 == Error::InvalidString,
            !name.spec_bytes().contains(0u8) && raw is None ==> r is Err && r->Err_0
                == Error::InvalidConfig,
            !name.spec_bytes().contains(0u8) ==> (raw matches Some(b) ==> (valid_utf8(b@) ==> (
            r matches Ok(s) && s@ == decode_utf8(b@)))),
            !name.spec_bytes().contains(0u8) ==> (raw matches Some(b) ==> (!valid_utf8(b@) ==> r is Err
                && r->Err_0 == Error::InvalidString)),
    {
        if has_nul(name) {
            return Err(Error::InvalidString);
        }
        match raw {
            None => Err(Error::InvalidConfig),
            Some(b) => decode_text(b),
        }
    }

    /// Checks the name and the value of a string parameter that is to be
    /// set.
    pub fn set_str(&mut self, name: &str, value: &str) -> (r: Result<(), Error>)
        ensures
            final(self).handle() == old(self).handle(),
            name.spec_bytes().contains(0u8) || value.spec_bytes().contains(0u8) ==> r is Err
                && r->Err_0 == Error::InvalidString,
            !name.spec_bytes().contains(0u8) && !value.spec_bytes().contains(0u8) ==> r is Ok,
    {
        if has_nul(name) || has_nul(value) {
            return Err(Error::InvalidString);
        }
        Ok(())
    }

    /// Takes note of a sound file whose header the engine has read into the
    /// configuration. `opened` says whether the file could be opened, and
    /// `status` is the engine's answer, negative for a file that is
    /// unreadable, unsupported or at odds with the configuration.
    pub fn from_soundfile(
        &mut self,
        soundfile: &str,
        name: Option<&str>,
        opened: bool,
        status: i32,
    ) -> (r: Result<(), Error>)
        ensures
            final(self).handle() == old(self).handle(),
            r == soundfile_result(soundfile, name, opened, status),
    {
        read_header(soundfile, name, opened, status)
    }

    /// As `from_soundfile`, for a file that is known to be a WAV file.
    pub fn from_wavfile(&mut self, wavfile: &str, name: Option<&str>, opened: bool, status: i32) -> (r:
        Result<(), Error>)
        ensures
            final(self).handle() == old(self).handle(),
            r == soundfile_result(wavfile, name, opened, status),
    {
        read_header(wavfile, name, opened, status)
    }

    /// As `from_soundfile`, for a file that is known to be a NIST Sphere
    /// file.
    pub fn from_nistfile(
        &mut self,
        nistfile: &str,
        name: Option<&str>,
        opened: bool,
        status: i32,
    ) -> (r: Result<(), Error>)
        ensures
            final(self).handle() == old(self).handle(),
            r == soundfile_result(nistfile, name, opened, status),
    {
        read_header(nistfile, name, opened, status)
    }

    /// Whether letting go of this object releases nothing in the engine.
    pub fn is_retained(&self) -> (b: bool)
        ensures
            b == !self.handle().owns(),
    {
        self.handle.is_retained()
    }

    /// The identity of the engine's configuration.
    pub fn get_inner(&self) -> (id: usize)
        ensures
            id == self.handle().id(),
    {
        self.handle.get_inner()
    }

    /// Sets whether another object owns the engine's configuration, so that
    /// this one must not release it.
    pub fn set_retained(&mut self, retained: bool)
        ensures
            final(self).handle().id() == old(self).handle().id(),
            final(self).handle().owns() == !retained,
    {
        self.handle.set_retained(retained);
    }
}

/// What reading a header from a sound file comes to.
fn read_header(path: &str, name: Option<&str>, opened: bool, status: i32) -> (r: Result<(), Error>)
    ensures
        r == soundfile_result(path, name, opened, status),
{
    if has_nul(path) {
        return Err(Error::InvalidString);
    }
    match name {
        Some(n) => {
            if has_nul(n) {
                return Err(Error::InvalidString);
            }
        },
        None => {},
    }
    if !opened {
        Err(Error::IOFailure)
    } else if status < 0 {
        Err(Error::InvalidConfig)
    } else {
        Ok(())
    }
}

} // verus!
