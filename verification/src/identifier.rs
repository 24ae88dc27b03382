//! Resource identifiers of the form `<provider>_<resource>`.

use crate::error::{LookupError, LookupErrorView};
use vstd::prelude::*;

verus! {

/// The character between the provider and the resource.
pub open spec fn separator() -> char {
    '_'
}

/// The text before the first separator of `input` and the text after it, or
/// `None` if `input` holds no separator.
pub open spec fn parts_of(input: Seq<char>) -> Option<(Seq<char>, Seq<char>)> {
    match input.index_of_first(separator()) {
        Some(at) => Some((input.take(at), input.skip(at + 1))),
        None => None,
    }
}

/// `input` is `provider`, one separator, then `resource`, and `provider`
/// holds no separator.
pub open spec fn splits_into(input: Seq<char>, provider: Seq<char>, resource: Seq<char>) -> bool {
    &&& input == provider + seq![separator()] + resource
    &&& !provider.contains(separator())
}

/// An identifier has parts exactly if it holds a separator.
pub proof fn lemma_parts_exist(input: Seq<char>)
    ensures
        parts_of(input) is Some <==> input.contains(separator()),
{
    input.index_of_first_ensures(separator());
}

/// The parts of an identifier are the one way to write it as a provider
/// without a separator, one separator, and a resource: exactly one separator
/// is taken out, and whatever follows it stays as it was.
pub proof fn lemma_parts_rejoin(input: Seq<char>, provider: Seq<char>, resource: Seq<char>)
    ensures
        parts_of(input) == Some((provider, resource)) <==> splits_into(input, provider, resource),
{
    input.index_of_first_ensures(separator());
    if parts_of(input) == Some((provider, resource)) {
        let at = input.index_of_first(separator())->0;
        assert(input =~= input.take(at) + seq![separator()] + input.skip(at + 1));
    }
    if splits_into(input, provider, resource) {
        let at = provider.len() as int;
        assert(input[at] == separator());
        assert forall|j: int| 0 <= j < at implies input[j] != separator() by {
            assert(input[j] == provider[j]);
        }
        assert(input.index_of_first(separator()) == Some(at));
        assert(input.take(at) =~= provider);
        assert(input.skip(at + 1) =~= resource);
    }
}

/// An identifier that holds a separator and does not begin with one has a
/// provider that is not empty: the text before its first separator. Its
/// resource is the text after that separator, later separators included.
pub proof fn lemma_provider_before_first_separator(input: Seq<char>)
    requires
        input.contains(separator()),
        input[0] != separator(),
    ensures
        parts_of(input) is Some,
        ({
            let (provider, resource) = parts_of(input)->0;
            &&& provider.len() > 0
            &&& provider == input.take(provider.len() as int)
            &&& input[provider.len() as int] == separator()
            &&& forall|j: int| 0 <= j < provider.len() ==> input[j] != separator()
            &&& resource == input.skip(provider.len() as int + 1)
        }),
{
    input.index_of_first_ensures(separator());
}

/// Splits an identifier at its first underscore into the provider's name and
/// the resource's name. Later underscores stay in the resource. An input
/// without an underscore is a parse error.
pub fn split(input: &str) -> (parts: Result<(String, String), LookupError>)
    ensures
        match parts {
            Ok((provider, resource)) => parts_of(input@) == Some((provider@, resource@)),
            Err(e) => parts_of(input@) is None && e@ == LookupErrorView::Parse,
        },
{
    broadcast use vstd::string::axiom_spec_iter;

    let n = input.unicode_len();
    let chars = input.chars();
    let mut i: usize = 0;
    for c in it: chars
        invariant
            i == it.index(),
            n == input@.len(),
            it.seq() == input@,
            forall|j: int| 0 <= j < i ==> input@[j] != separator(),
    {
        if c == '_' {
            let provider = input.substring_char(0, i);
            let resource = input.substring_char(i + 1, n);
            proof {
                input@.index_of_first_ensures(separator());
            }
            return Ok((provider.to_owned(), resource.to_owned()));
        }
        i += 1;
    }
    proof {
        input@.index_of_first_ensures(separator());
    }
    Err(LookupError::Parse)
}

/// The identifier that is looked up when the command line names none.
pub const DEFAULT_RESOURCE: &'static str = "google_bigquery_dataset_access";

/// The command line: the identifier of the resource to look up.
#[derive(Debug, PartialEq, Eq)]
pub struct Args {
    pub resource: String,
}

impl Clone for Args {
    fn clone(&self) -> (copy: Args)
        ensures
            copy == *self,
    {
        Args { resource: self.resource.clone() }
    }
}

impl Default for Args {
    fn default() -> (args: Args)
        ensures
            args@ == DEFAULT_RESOURCE@,
    {
        Args { resource: DEFAULT_RESOURCE.to_owned() }
    }
}

impl View for Args {
    type V = Seq<char>;

    open spec fn view(&self) -> Seq<char> {
        self.resource@
    }
}

impl Args {
    /// The provider and the resource that the identifier names, or `None` if
    /// it holds no underscore.
    pub fn get_provider_and_resource(&self) -> (parts: Option<(String, String)>)
        ensures
            match parts {
                Some((provider, resource)) => parts_of(self@) == Some((provider@, resource@)),
                None => parts_of(self@) is None,
            },
    {
        match split(self.resource.as_str()) {
            Ok(parts) => Some(parts),
            Err(_) => None,
        }
    }
}

} // verus!
