use vstd::prelude::*;

use crate::descriptor::descriptor_scripts;
use crate::descriptor::DescriptorFile;
use crate::descriptor::PackageConfig;
use crate::error::NpmError;

verus! {

/// The exact outcome of a script query, as a function of what reading the
/// descriptor file yielded and of the queried name: a missing descriptor is
/// `NotAvailable`, an unreadable one `Io`, an invalid one `Parse`; otherwise
/// the query answers whether the scripts mapping is present and holds the
/// name.
pub open spec fn script_query(descriptor: DescriptorFile, name: Seq<char>) -> Result<
    bool,
    NpmError,
> {
    match descriptor {
        DescriptorFile::Missing => Err(NpmError::NotAvailable),
        DescriptorFile::Unreadable => Err(NpmError::Io),
        DescriptorFile::Contents(text) => match descriptor_scripts(text@) {
            None => Err(NpmError::Parse),
            Some(None) => Ok(false),
            Some(Some(m)) => Ok(m.contains_key(name)),
        },
    }
}

/// The decision a run operation takes from its script query: a failing query
/// is propagated and nothing is run; any answer lets the run proceed, whether
/// or not the script exists — the external tool is left to reject an unknown
/// name on its own.
pub open spec fn run_preflight(descriptor: DescriptorFile, name: Seq<char>) -> Result<
    (),
    NpmError,
> {
    match script_query(descriptor, name) {
        Err(e) => Err(e),
        Ok(_) => Ok(()),
    }
}

/// A runner for the scripts of one npm-style project directory. It stores the
/// location verbatim at construction and performs no I/O until an operation
/// is invoked.
pub struct NpmScripts {
    path: String,
}

impl NpmScripts {
    /// The stored project location.
    pub closed spec fn path_spec(&self) -> Seq<char> {
        self.path@
    }

    /// Makes a runner for the project at `path`; the path is stored verbatim
    /// and not validated here.
    pub fn new(path: String) -> (r: Self)
        ensures
            r.path_spec() == path@,
    {
        NpmScripts { path }
    }

    /// The project directory this runner points at.
    pub fn path(&self) -> (r: &String)
        ensures
            r@ == self.path_spec(),
    {
        &self.path
    }

    /// Relies on std::path::Path::exists: true iff the stored path exists on
    /// the filesystem, whatever it is. The answer depends on the state of the
    /// disk, so nothing is stated about the result.
    #[verifier::external_body]
    pub fn is_available(&self) -> bool {
        std::path::Path::new(self.path.as_str()).exists()
    }

    /// The availability check every operation makes first: when it fails, the
    /// error is always `NotAvailable`, whatever the disk holds.
    pub fn ensure_available(&self) -> (r: Result<(), NpmError>)
        ensures
            r is Err ==> r == Err::<(), NpmError>(NpmError::NotAvailable),
    {
        if self.is_available() {
            Ok(())
        } else {
            Err(NpmError::NotAvailable)
        }
    }

    /// Whether the project defines a script named `script`, decided from what
    /// reading its descriptor file yielded. True iff the descriptor holds a
    /// scripts mapping with exactly that name; the outcome is the pure
    /// function `script_query` of the arguments, so repeated queries against
    /// an unchanged descriptor agree.
    pub fn has_script(&self, descriptor: &DescriptorFile, script: &str) -> (r: Result<
        bool,
        NpmError,
    >)
        ensures
            r == script_query(*descriptor, script@),
    {
        match descriptor {
            DescriptorFile::Missing => Err(NpmError::NotAvailable),
            DescriptorFile::Unreadable => Err(NpmError::Io),
            DescriptorFile::Contents(text) => match PackageConfig::parse(text.as_str()) {
                Err(e) => Err(e),
                Ok(cfg) => Ok(cfg.contains_script(script)),
            },
        }
    }

    /// Decides whether a run of `script` may proceed: a failing script query
    /// is propagated and nothing may be run; a successful one lets the run
    /// proceed even when it answered false, leaving an unknown name to the
    /// external tool.
    pub fn run_script_preflight(&self, descriptor: &DescriptorFile, script: &str) -> (r: Result<
        (),
        NpmError,
    >)
        ensures
            r == run_preflight(*descriptor, script@),
    {
        match self.has_script(descriptor, script) {
            Err(e) => Err(e),
            Ok(_) => Ok(()),
        }
    }
}

/// Turns whether the external package-manager tool was launched into the
/// result of an install or run operation: the operation succeeds once the
/// tool has run, whatever its exit status; only a failure to launch it is an
/// error.
pub fn launch_result(launched: bool) -> (r: Result<(), NpmError>)
    ensures
        r == (if launched {
            Ok::<(), NpmError>(())
        } else {
            Err::<(), NpmError>(NpmError::Tool)
        }),
{
    if launched {
        Ok(())
    } else {
        Err(NpmError::Tool)
    }
}

/// A project without a descriptor file fails every script query with
/// `NotAvailable`, and one whose descriptor cannot be read fails every script
/// query with `Io`, whatever the queried name.
pub proof fn lemma_query_without_descriptor(name: Seq<char>)
    ensures
        script_query(DescriptorFile::Missing, name) == Err::<bool, NpmError>(
            NpmError::NotAvailable,
        ),
        script_query(DescriptorFile::Unreadable, name) == Err::<bool, NpmError>(NpmError::Io),
{
}

/// A descriptor without a scripts mapping answers every script query with
/// false, whatever the queried name.
pub proof fn lemma_no_scripts_mapping(text: String, name: Seq<char>)
    requires
        descriptor_scripts(text@) == Some(None::<Map<Seq<char>, Seq<char>>>),
    ensures
        script_query(DescriptorFile::Contents(text), name) == Ok::<bool, NpmError>(false),
{
}

/// Script queries are repeatable: the outcome is a function of the descriptor
/// and the name alone, so any two results of querying the same name against
/// an unchanged descriptor — as every call of `has_script` is bound to
/// return — are equal.
pub proof fn lemma_query_repeatable(
    descriptor: DescriptorFile,
    name: Seq<char>,
    first: Result<bool, NpmError>,
    second: Result<bool, NpmError>,
)
    requires
        first == script_query(descriptor, name),
        second == script_query(descriptor, name),
    ensures
        first == second,
{
}

} // verus!
