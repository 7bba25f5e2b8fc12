//! The resolved configuration of one composition job, and the names and
//! documents derived from it.

use vstd::prelude::*;
use vstd::string::StringExecFns;
use crate::json::{json_object, object_text, pairs_view};

verus! {

/// The crash parameters the kernel hands over for the crashed process.
#[derive(Debug, Clone)]
pub struct CoreParams {
    pub exe: String,
    pub pid: String,
    pub signal: String,
    pub timestamp: String,
    pub hostname: String,
}

/// Whether payload bytes are compressed in the archive.
#[derive(Debug, Clone, Copy, PartialEq, Eq, Structural)]
pub enum Compression {
    Stored,
    Deflated,
}

/// A fully resolved configuration snapshot.
#[derive(Debug, Clone)]
pub struct CoreConfig {
    pub log_level: String,
    /// Skip the container-runtime lookup.
    pub ignore_crio: bool,
    pub image_command: String,
    pub use_crio_config: bool,
    pub crictl_config_path: String,
    pub bin_path: String,
    pub compression: bool,
    /// Deadline of the whole job, in seconds.
    pub timeout: u64,
    /// Write a crash event record.
    pub core_events: bool,
    /// Directory that receives event records.
    pub event_location: String,
    /// Directory that receives archives.
    pub base_path: String,
    pub namespace: String,
    pub params: CoreParams,
}

pub open spec fn dash() -> Seq<char> {
    seq!['-']
}

pub open spec fn templated_name_of(p: CoreParams) -> Seq<char> {
    p.timestamp@ + seq!['-', 'd', 'u', 'm', 'p', '-'] + p.hostname@ + dash() + p.exe@ + dash()
        + p.pid@ + dash() + p.signal@
}

pub open spec fn zip_name_of(p: CoreParams) -> Seq<char> {
    templated_name_of(p) + seq!['.', 'z', 'i', 'p']
}

pub open spec fn core_filename_of(p: CoreParams) -> Seq<char> {
    templated_name_of(p) + seq!['.', 'c', 'o', 'r', 'e']
}

pub open spec fn dump_info_filename_of(p: CoreParams) -> Seq<char> {
    templated_name_of(p) + seq![
        '-',
        'd',
        'u',
        'm',
        'p',
        '-',
        'i',
        'n',
        'f',
        'o',
        '.',
        'j',
        's',
        'o',
        'n',
    ]
}

pub open spec fn bool_text(b: bool) -> Seq<char> {
    if b {
        seq!['t', 'r', 'u', 'e']
    } else {
        seq!['f', 'a', 'l', 's', 'e']
    }
}

/// The members of the metadata document, in order.
pub open spec fn dump_info_fields(c: CoreConfig) -> Seq<(Seq<char>, Seq<char>)> {
    seq![
        ("dump_file"@, core_filename_of(c.params)),
        ("exe"@, c.params.exe@),
        ("pid"@, c.params.pid@),
        ("signal"@, c.params.signal@),
        ("timestamp"@, c.params.timestamp@),
        ("hostname"@, c.params.hostname@),
        ("namespace"@, c.namespace@),
        ("image_command"@, c.image_command@),
        ("ignore_crio"@, bool_text(c.ignore_crio)),
    ]
}

fn bool_string(b: bool) -> (r: String)
    ensures
        r@ == bool_text(b),
{
    if b {
        proof {
            reveal_strlit("true");
        }
        "true".to_owned()
    } else {
        proof {
            reveal_strlit("false");
        }
        "false".to_owned()
    }
}

/// A member of a document: the key's text and the value.
pub fn member(key: &str, value: String) -> (r: (String, String))
    ensures
        r.0@ == key@,
        r.1 == value,
{
    (key.to_owned(), value)
}

impl CoreParams {
    /// A copy with the same field values.
    pub fn duplicate(&self) -> (r: CoreParams)
        ensures
            r == *self,
    {
        CoreParams {
            exe: self.exe.clone(),
            pid: self.pid.clone(),
            signal: self.signal.clone(),
            timestamp: self.timestamp.clone(),
            hostname: self.hostname.clone(),
        }
    }

    /// The base name shared by the archive and its entries:
    /// `<timestamp>-dump-<hostname>-<exe>-<pid>-<signal>`.
    pub fn templated_name(&self) -> (r: String)
        ensures
            r@ == templated_name_of(*self),
    {
        let mut r = self.timestamp.clone();
        r.append("-dump-");
        r.append(self.hostname.as_str());
        r.append("-");
        r.append(self.exe.as_str());
        r.append("-");
        r.append(self.pid.as_str());
        r.append("-");
        r.append(self.signal.as_str());
        proof {
            reveal_strlit("-dump-");
            reveal_strlit("-");
            assert(r@ =~= templated_name_of(*self));
        }
        r
    }
}

impl CoreConfig {
    /// Sets the namespace recorded in the metadata document.
    pub fn set_namespace(&mut self, namespace: String)
        ensures
            *final(self) == (CoreConfig { namespace, ..*old(self) }),
    {
        self.namespace = namespace;
    }

    pub fn get_templated_name(&self) -> (r: String)
        ensures
            r@ == templated_name_of(self.params),
    {
        self.params.templated_name()
    }

    /// The archive's file name, without its directory.
    pub fn get_zip_name(&self) -> (r: String)
        ensures
            r@ == zip_name_of(self.params),
    {
        let mut r = self.get_templated_name();
        r.append(".zip");
        proof {
            reveal_strlit(".zip");
        }
        r
    }

    /// Where the archive is written: `<base_path>/<zip name>`.
    pub fn get_zip_full_path(&self) -> (r: String)
        ensures
            r@ == self.base_path@ + seq!['/'] + zip_name_of(self.params),
    {
        let mut r = self.base_path.clone();
        r.append("/");
        let name = self.get_zip_name();
        r.append(name.as_str());
        proof {
            reveal_strlit("/");
        }
        r
    }

    /// Name of the archive's core-payload entry.
    pub fn get_core_filename(&self) -> (r: String)
        ensures
            r@ == core_filename_of(self.params),
    {
        let mut r = self.get_templated_name();
        r.append(".core");
        proof {
            reveal_strlit(".core");
        }
        r
    }

    /// Name of the archive's metadata entry.
    pub fn get_dump_info_filename(&self) -> (r: String)
        ensures
            r@ == dump_info_filename_of(self.params),
    {
        let mut r = self.get_templated_name();
        r.append("-dump-info.json");
        proof {
            reveal_strlit("-dump-info.json");
        }
        r
    }

    /// Where the container runtime's client configuration is read from, when
    /// it is used at all.
    pub fn runtime_config_path(&self) -> (r: Option<String>)
        ensures
            self.use_crio_config ==> r == Some(self.crictl_config_path),
            !self.use_crio_config ==> r is None,
    {
        if self.use_crio_config {
            Some(self.crictl_config_path.clone())
        } else {
            None
        }
    }

    /// The compression applied to both archive entries.
    pub fn compression_method(&self) -> (r: Compression)
        ensures
            r == (if self.compression {
                Compression::Deflated
            } else {
                Compression::Stored
            }),
    {
        if self.compression {
            Compression::Deflated
        } else {
            Compression::Stored
        }
    }

    /// The metadata document: a JSON object with the members of
    /// `dump_info_fields`, in that order.
    pub fn get_dump_info(&self) -> (r: String)
        ensures
            r@ == object_text(dump_info_fields(*self)),
    {
        let mut fields: Vec<(String, String)> = Vec::new();
        fields.push(member("dump_file", self.get_core_filename()));
        fields.push(member("exe", self.params.exe.clone()));
        fields.push(member("pid", self.params.pid.clone()));
        fields.push(member("signal", self.params.signal.clone()));
        fields.push(member("timestamp", self.params.timestamp.clone()));
        fields.push(member("hostname", self.params.hostname.clone()));
        fields.push(member("namespace", self.namespace.clone()));
        fields.push(member("image_command", self.image_command.clone()));
        fields.push(member("ignore_crio", bool_string(self.ignore_crio)));
        proof {
            assert(pairs_view(fields@) =~= dump_info_fields(*self));
        }
        json_object(&fields)
    }
}

} // verus!
