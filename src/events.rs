//! The crash event record written when the runtime lookup is skipped.

use vstd::prelude::*;
use vstd::string::StringExecFns;
use crate::config::{CoreConfig, CoreParams, member, zip_name_of};
use crate::json::{json_object, object_text, pairs_view};

verus! {

/// A crash, tagged with the file name of the archive that holds its core.
#[derive(Debug, Clone)]
pub struct CoreEvent {
    pub params: CoreParams,
    /// The archive's base file name, extension included, no directory.
    pub zip_name: String,
}

/// The members of the serialized event record, in order.
pub open spec fn event_fields(e: CoreEvent) -> Seq<(Seq<char>, Seq<char>)> {
    seq![
        ("exe"@, e.params.exe@),
        ("pid"@, e.params.pid@),
        ("signal"@, e.params.signal@),
        ("timestamp"@, e.params.timestamp@),
        ("hostname"@, e.params.hostname@),
        ("zip_name"@, e.zip_name@),
    ]
}

/// The record's file name: the archive's name followed by `-event.json`, so
/// that writing the same crash again overwrites the same file.
pub open spec fn event_file_name_of(e: CoreEvent) -> Seq<char> {
    e.zip_name@ + seq!['-', 'e', 'v', 'e', 'n', 't', '.', 'j', 's', 'o', 'n']
}

impl CoreEvent {
    /// The event of a job that skipped the container-runtime lookup.
    pub fn new_no_crio(params: CoreParams, zip_name: String) -> (r: CoreEvent)
        ensures
            r.params == params,
            r.zip_name == zip_name,
    {
        CoreEvent { params, zip_name }
    }

    /// The record as a JSON object.
    pub fn to_json(&self) -> (r: String)
        ensures
            r@ == object_text(event_fields(*self)),
    {
        let mut fields: Vec<(String, String)> = Vec::new();
        fields.push(member("exe", self.params.exe.clone()));
        fields.push(member("pid", self.params.pid.clone()));
        fields.push(member("signal", self.params.signal.clone()));
        fields.push(member("timestamp", self.params.timestamp.clone()));
        fields.push(member("hostname", self.params.hostname.clone()));
        fields.push(member("zip_name", self.zip_name.clone()));
        proof {
            assert(pairs_view(fields@) =~= event_fields(*self));
        }
        json_object(&fields)
    }

    /// The record's file name.
    pub fn file_name(&self) -> (r: String)
        ensures
            r@ == event_file_name_of(*self),
    {
        let mut r = self.zip_name.clone();
        r.append("-event.json");
        proof {
            reveal_strlit("-event.json");
        }
        r
    }

    /// Where the record is written inside `dir`.
    pub fn event_path(&self, dir: &str) -> (r: String)
        ensures
            r@ == dir@ + seq!['/'] + event_file_name_of(*self),
    {
        let mut r = dir.to_owned();
        r.append("/");
        let name = self.file_name();
        r.append(name.as_str());
        proof {
            reveal_strlit("/");
        }
        r
    }
}

impl CoreConfig {
    /// The event of this job when the runtime lookup is skipped: its crash
    /// parameters, tagged with the archive's base file name.
    pub fn no_runtime_event(&self) -> (r: CoreEvent)
        ensures
            r.params == self.params,
            r.zip_name@ == zip_name_of(self.params),
    {
        CoreEvent::new_no_crio(self.params.duplicate(), self.get_zip_name())
    }
}

} // verus!
