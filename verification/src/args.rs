//! Reading what an operator types: capabilities, parameters and tags.

use vstd::prelude::*;
use vstd::string::StrSliceExecFns;
use crate::input::{Capability, Parameter, Tag};
use crate::text::{chars_of, run_end, str_eq};

verus! {

/// A capability as typed on the command line.
#[derive(Clone, Copy, Debug, PartialEq, Eq, Structural)]
pub struct CapabilityArg(pub Capability);

/// A text that names no capability.
#[derive(Debug, PartialEq, Eq)]
pub struct InvalidCapability(pub String);

/// A parameter as typed on the command line: `key=value`.
#[derive(Clone, Debug, PartialEq, Eq)]
pub struct ParameterArg(pub Parameter);

/// A text that is no `key=value` pair.
#[derive(Debug, PartialEq, Eq)]
pub struct InvalidParameter(pub String);

/// Tags as typed on the command line: one `key=value` pair, or a JSON object
/// of strings.
#[derive(Clone, Debug, PartialEq, Eq)]
pub enum TagArg {
    KeyValue(Tag),
    Json(Vec<Tag>),
}

/// A text that is neither a `key=value` pair nor a JSON object of strings.
#[derive(Debug, PartialEq, Eq)]
pub struct InvalidTag(pub String);

/// The test that a character is not the sign between a key and its value.
pub open spec fn before_sign() -> spec_fn(char) -> bool {
    |c: char| c != '='
}

/// The key and the value of `text`: what stands before its first `=`, and
/// what stands after it. `None` where `text` holds no `=`.
pub open spec fn key_value(text: Seq<char>) -> Option<(Seq<char>, Seq<char>)> {
    let sign = run_end(text, 0, before_sign());
    if sign < text.len() {
        Some((text.subrange(0, sign), text.subrange(sign + 1, text.len() as int)))
    } else {
        None
    }
}

/// Splits `text` at its first `=`.
pub fn split_key_value(text: &str) -> (r: Option<(String, String)>)
    ensures
        match r {
            Some((key, value)) => key_value(text@) == Some((key@, value@)),
            None => key_value(text@).is_none(),
        },
{
    let chars = chars_of(text);
    let mut sign: usize = 0;
    while sign < chars.len() && chars[sign] != '='
        invariant
            sign <= chars.len(),
            run_end(chars@, 0, before_sign()) == run_end(chars@, sign as int, before_sign()),
        decreases chars.len() - sign,
    {
        sign += 1;
    }
    if sign < chars.len() {
        let key = text.substring_char(0, sign).to_owned();
        let value = text.substring_char(sign + 1, chars.len()).to_owned();
        Some((key, value))
    } else {
        None
    }
}

/// The keys and values of `tags`, as text.
pub open spec fn tag_pairs(tags: Seq<Tag>) -> Seq<(Seq<char>, Seq<char>)> {
    tags.map_values(|tag: Tag| (tag.key@, tag.value@))
}

/// The keys and values that `serde_json` reads from a JSON object of
/// strings, in the order of the keys, or `None` where it refuses the text
/// as such an object.
pub uninterp spec fn json_tags(text: Seq<char>) -> Option<Seq<(Seq<char>, Seq<char>)>>;

/// Calls `serde_json::from_str` for a map from strings to strings, ordered
/// by key, and hands the entries on in that order. Nothing is proved of the
/// reading: the contract only gives its result a name.
#[verifier::external_body]
fn parse_json_tags(text: &str) -> (r: Option<Vec<Tag>>)
    ensures
        match r {
            Some(tags) => json_tags(text@) == Some(tag_pairs(tags@)),
            None => json_tags(text@).is_none(),
        },
{
    match serde_json::from_str::<std::collections::BTreeMap<String, String>>(text) {
        Ok(tags) => Some(tags.into_iter().map(|(key, value)| Tag { key, value }).collect()),
        Err(_) => None,
    }
}

impl Capability {
    /// The capability that `text` names, if any.
    pub open spec fn named(text: Seq<char>) -> Option<Capability> {
        if text == "CAPABILITY_IAM"@ {
            Some(Capability::Iam)
        } else if text == "CAPABILITY_NAMED_IAM"@ {
            Some(Capability::NamedIam)
        } else if text == "CAPABILITY_AUTO_EXPAND"@ {
            Some(Capability::AutoExpand)
        } else {
            None
        }
    }
}

/// Reading the name of a capability gives that capability back.
pub proof fn lemma_capability_name_reads_back(capability: Capability)
    ensures
        Capability::named(capability.wire_name()) == Some(capability),
{
    reveal_strlit("CAPABILITY_IAM");
    reveal_strlit("CAPABILITY_NAMED_IAM");
    reveal_strlit("CAPABILITY_AUTO_EXPAND");
    assert("CAPABILITY_IAM"@.len() == 14);
    assert("CAPABILITY_NAMED_IAM"@.len() == 20);
}

impl CapabilityArg {
    /// Reads the name of a capability.
    pub fn from_str(capability: &str) -> (r: Result<CapabilityArg, InvalidCapability>)
        ensures
            match r {
                Ok(arg) => Capability::named(capability@) == Some(arg.0),
                Err(invalid) => invalid.0@ == capability@ && Capability::named(
                    capability@,
                ).is_none(),
            },
    {
        if str_eq(capability, "CAPABILITY_IAM") {
            Ok(CapabilityArg(Capability::Iam))
        } else if str_eq(capability, "CAPABILITY_NAMED_IAM") {
            Ok(CapabilityArg(Capability::NamedIam))
        } else if str_eq(capability, "CAPABILITY_AUTO_EXPAND") {
            Ok(CapabilityArg(Capability::AutoExpand))
        } else {
            Err(InvalidCapability(capability.to_owned()))
        }
    }

    /// The capability.
    pub fn into_capability(self) -> (r: Capability)
        ensures
            r == self.0,
    {
        self.0
    }
}

impl InvalidCapability {
    /// What to tell the operator.
    pub open spec fn message(self) -> Seq<char> {
        "invalid capability `"@ + self.0@
            + "`, should be one of `CAPABILITY_IAM`, `CAPABILITY_NAMED_IAM`, or `CAPABILITY_AUTO_EXPAND`"@
    }

    /// What to tell the operator.
    pub fn to_string(&self) -> (r: String)
        ensures
            r@ == self.message(),
    {
        let mut message = "invalid capability `".to_owned();
        message.append(self.0.as_str());
        message.append(
            "`, should be one of `CAPABILITY_IAM`, `CAPABILITY_NAMED_IAM`, or `CAPABILITY_AUTO_EXPAND`",
        );
        message
    }
}

impl ParameterArg {
    /// Reads a parameter: the key is what stands before the first `=`, the
    /// value all that stands after it.
    pub fn from_str(parameter: &str) -> (r: Result<ParameterArg, InvalidParameter>)
        ensures
            match r {
                Ok(arg) => key_value(parameter@) == Some((arg.0.key@, arg.0.value@)),
                Err(invalid) => invalid.0@ == parameter@ && key_value(parameter@).is_none(),
            },
    {
        match split_key_value(parameter) {
            Some((key, value)) => Ok(ParameterArg(Parameter { key, value })),
            None => Err(InvalidParameter(parameter.to_owned())),
        }
    }

    /// The parameter.
    pub fn into_parameter(self) -> (r: Parameter)
        ensures
            r == self.0,
    {
        self.0
    }
}

impl InvalidParameter {
    /// What to tell the operator.
    pub open spec fn message(self) -> Seq<char> {
        "invalid parameter `"@ + self.0@ + "`, must be in the form `key=value`"@
    }

    /// What to tell the operator.
    pub fn to_string(&self) -> (r: String)
        ensures
            r@ == self.message(),
    {
        let mut message = "invalid parameter `".to_owned();
        message.append(self.0.as_str());
        message.append("`, must be in the form `key=value`");
        message
    }
}

/// What a text reads as where tags are expected.
pub enum TagShape {
    KeyValue(Seq<char>, Seq<char>),
    Json(Seq<(Seq<char>, Seq<char>)>),
    Invalid(Seq<char>),
}

impl TagArg {
    /// What `tag` reads as when its reading as JSON is `json`.
    pub open spec fn shape(tag: Seq<char>, json: Option<Seq<(Seq<char>, Seq<char>)>>) -> TagShape {
        match json {
            Some(tags) => TagShape::Json(tags),
            None => match key_value(tag) {
                Some((key, value)) => TagShape::KeyValue(key, value),
                None => TagShape::Invalid(tag),
            },
        }
    }

    /// The shape of what was read.
    pub open spec fn shape_of(read: Result<TagArg, InvalidTag>) -> TagShape {
        match read {
            Ok(TagArg::KeyValue(tag)) => TagShape::KeyValue(tag.key@, tag.value@),
            Ok(TagArg::Json(tags)) => TagShape::Json(tag_pairs(tags@)),
            Err(invalid) => TagShape::Invalid(invalid.0@),
        }
    }

    /// Reads tags from `tag`, whose reading as a JSON object is `json`.
    pub fn from_parsed(tag: &str, json: Option<Vec<Tag>>) -> (r: Result<TagArg, InvalidTag>)
        ensures
            Self::shape_of(r) == Self::shape(
                tag@,
                match json {
                    Some(tags) => Some(tag_pairs(tags@)),
                    None => None,
                },
            ),
    {
        match json {
            Some(tags) => Ok(TagArg::Json(tags)),
            None => match split_key_value(tag) {
                Some((key, value)) => Ok(TagArg::KeyValue(Tag { key, value })),
                None => Err(InvalidTag(tag.to_owned())),
            },
        }
    }

    /// Reads tags: a JSON object of strings where the text is one, else a
    /// `key=value` pair.
    pub fn from_str(tag: &str) -> (r: Result<TagArg, InvalidTag>)
        ensures
            Self::shape_of(r) == Self::shape(tag@, json_tags(tag@)),
    {
        let json = parse_json_tags(tag);
        Self::from_parsed(tag, json)
    }

    /// The tags, in order.
    pub fn into_tags(self) -> (r: Vec<Tag>)
        ensures
            match self {
                TagArg::KeyValue(tag) => r@ == seq![tag],
                TagArg::Json(tags) => r == tags,
            },
    {
        match self {
            TagArg::KeyValue(tag) => {
                let mut tags: Vec<Tag> = Vec::new();
                tags.push(tag);
                tags
            },
            TagArg::Json(tags) => tags,
        }
    }
}

impl InvalidTag {
    /// What to tell the operator.
    pub open spec fn message(self) -> Seq<char> {
        "invalid tag `"@ + self.0@ + "`, must be in the form `key=value` or a JSON object"@
    }

    /// What to tell the operator.
    pub fn to_string(&self) -> (r: String)
        ensures
            r@ == self.message(),
    {
        let mut message = "invalid tag `".to_owned();
        message.append(self.0.as_str());
        message.append("`, must be in the form `key=value` or a JSON object");
        message
    }
}

/// The tags of `args`, one argument after another.
pub open spec fn tags_of(args: Seq<TagArg>) -> Seq<Tag>
    decreases args.len(),
{
    if args.len() == 0 {
        Seq::empty()
    } else {
        tags_of(args.drop_last()) + match args.last() {
            TagArg::KeyValue(tag) => seq![tag],
            TagArg::Json(tags) => tags@,
        }
    }
}

/// Gathers the tags of all arguments, in order.
pub fn collect_tags(args: Vec<TagArg>) -> (r: Vec<Tag>)
    ensures
        r@ == tags_of(args@),
{
    let ghost all = args@;
    let mut tags: Vec<Tag> = Vec::new();
    for arg in it: args
        invariant
            it.seq() == all,
            tags@ == tags_of(all.take(it.index() as int)),
    {
        assert(all.take(it.index() + 1).drop_last() =~= all.take(it.index() as int));
        let mut more = arg.into_tags();
        tags.append(&mut more);
    }
    assert(all.take(all.len() as int) =~= all);
    tags
}

/// Gathers the parameters of all arguments, in order.
pub fn collect_parameters(args: Vec<ParameterArg>) -> (r: Vec<Parameter>)
    ensures
        r@ == args@.map_values(|arg: ParameterArg| arg.0),
{
    let ghost all = args@;
    let mut parameters: Vec<Parameter> = Vec::new();
    for arg in it: args
        invariant
            it.seq() == all,
            parameters@ == all.take(it.index() as int).map_values(|arg: ParameterArg| arg.0),
    {
        parameters.push(arg.into_parameter());
    }
    parameters
}

/// Gathers the capabilities of all arguments, in order.
pub fn collect_capabilities(args: Vec<CapabilityArg>) -> (r: Vec<Capability>)
    ensures
        r@ == args@.map_values(|arg: CapabilityArg| arg.0),
{
    let ghost all = args@;
    let mut capabilities: Vec<Capability> = Vec::new();
    for arg in it: args
        invariant
            it.seq() == all,
            capabilities@ == all.take(it.index() as int).map_values(|arg: CapabilityArg| arg.0),
    {
        capabilities.push(arg.into_capability());
    }
    capabilities
}

/// A list as an option: an empty list stands for none given.
pub fn some_unless_empty(items: Vec<String>) -> (r: Option<Vec<String>>)
    ensures
        match r {
            Some(kept) => kept == items && items@.len() > 0,
            None => items@.len() == 0,
        },
{
    if items.len() == 0 {
        None
    } else {
        Some(items)
    }
}

} // verus!
