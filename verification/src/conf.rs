//! The configuration model: the stored configuration text, the registered
//! field checks, and the aggregation of their failures. Reading the file
//! and running the checks happens outside the library; the library holds
//! the text and turns check outcomes into one report.

use vstd::pervasive::unreached;
use vstd::prelude::*;
use vstd::string::*;

verus! {

/// What a configuration field check reports when a field is invalid.
#[derive(Debug, Clone, PartialEq)]
pub enum FieldCheckError {
    BizError(String),
}

impl FieldCheckError {
    pub fn message(&self) -> (r: &String)
        ensures
            self matches FieldCheckError::BizError(m) && r@ == m@,
    {
        match self {
            FieldCheckError::BizError(m) => m,
        }
    }
}

/// A type that can check its own fields after being filled from the
/// configuration. Implementors live with their configuration structs.
pub trait CheckFromConf {
    fn _field_check(&self) -> Result<(), FieldCheckError>;
}

/// The basic identity a command line announces for the program.
#[derive(Debug, Clone, PartialEq)]
pub struct CliBasic {
    pub name: &'static str,
    pub version: &'static str,
    pub author: &'static str,
    pub about: &'static str,
}

/// One check's line of the failure report: its name, a colon, its message,
/// and a line break.
pub open spec fn spec_report_entry(name: Seq<char>, msg: Seq<char>) -> Seq<char> {
    name + ": "@ + msg + "\n"@
}

/// The failure report of a run of checks: one line per failed check, in
/// order, and nothing for the ones that passed.
pub open spec fn spec_report(results: Seq<(String, Result<(), FieldCheckError>)>) -> Seq<char>
    decreases results.len(),
{
    if results.len() == 0 {
        Seq::empty()
    } else {
        let head = match results[0].1 {
            Result::Ok(u) => Seq::<char>::empty(),
            Result::Err(e) => match e {
                FieldCheckError::BizError(m) => spec_report_entry(results[0].0@, m@),
            },
        };
        head + spec_report(results.skip(1))
    }
}

/// Aggregates the outcomes of the registered checks, each under its name:
/// `None` when every check passed, otherwise the whole failure report.
pub fn collect_check_errors(results: &Vec<(String, Result<(), FieldCheckError>)>) -> (r: Option<
    String,
>)
    ensures
        r is Some <==> (exists|i: int| 0 <= i < results@.len() && results@[i].1 is Err),
        r matches Some(s) ==> s@ == spec_report(results@),
{
    let mut out: String = String::new();
    let mut found = false;
    let mut i: usize = 0;
    proof {
        assert(results@.skip(0) =~= results@);
    }
    while i < results.len()
        invariant
            i <= results@.len(),
            spec_report(results@) == out@ + spec_report(results@.skip(i as int)),
            found == (exists|t: int| 0 <= t < i && results@[t].1 is Err),
        decreases results@.len() - i,
    {
        proof {
            assert(results@.skip(i as int)[0] == results@[i as int]);
            assert(results@.skip(i as int).skip(1) =~= results@.skip(i as int + 1));
        }
        let pair = &results[i];
        match &pair.1 {
            Result::Ok(_) => {
                proof {
                    assert(spec_report(results@.skip(i as int)) == spec_report(
                        results@.skip(i as int + 1),
                    ));
                }
            },
            Result::Err(e) => {
                out.append(pair.0.as_str());
                out.append(": ");
                match e {
                    FieldCheckError::BizError(m) => {
                        out.append(m.as_str());
                    },
                }
                out.append("\n");
                found = true;
                proof {
                    assert(exists|t: int| 0 <= t < i + 1 && results@[t].1 is Err);
                }
            },
        }
        i = i + 1;
    }
    proof {
        assert(results@.skip(i as int) =~= Seq::<(String, Result<(), FieldCheckError>)>::empty());
        assert(out@ =~= spec_report(results@));
    }
    if found {
        Some(out)
    } else {
        None
    }
}

/// The stored configuration: the text the process was started with, and
/// the names of the checks registered against it.
#[derive(Debug)]
pub struct ConfStore {
    pub conf: Option<String>,
    pub names: Vec<String>,
}

impl ConfStore {
    pub fn new() -> (r: Self)
        ensures
            r.conf is None,
            r.names@ == Seq::<String>::empty(),
    {
        ConfStore { conf: None, names: Vec::new() }
    }

    /// Records that a check of this name was registered. The check itself
    /// runs outside the library and reports through `collect_check_errors`.
    pub fn register_function(&mut self, name: String)
        ensures
            final(self).names@ == old(self).names@.push(name),
            final(self).conf == old(self).conf,
    {
        self.names.push(name);
    }

    /// Stores the configuration text. It is stored once per process.
    pub fn init_cfg(&mut self, conf: String)
        requires
            old(self).conf is None,
        ensures
            final(self).conf == Some(conf),
            final(self).names == old(self).names,
    {
        self.conf = Some(conf);
    }

    /// The stored configuration text. The caller must have stored it;
    /// `try_get_config` is the checked form.
    pub fn get_config(&self) -> (r: &String)
        requires
            self.conf is Some,
        ensures
            self.conf == Some(*r),
    {
        match &self.conf {
            Some(c) => c,
            None => unreached(),
        }
    }

    /// The stored configuration text, if any was stored.
    pub fn try_get_config(&self) -> (r: Option<&String>)
        ensures
            r is Some <==> self.conf is Some,
            r matches Some(s) ==> self.conf == Some(*s),
    {
        match &self.conf {
            Some(c) => Some(c),
            None => None,
        }
    }
}

} // verus!
