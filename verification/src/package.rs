//! Packaging: which properties of a template may point at local files, and
//! what takes the place of such a pointer once the files are in S3.

use vstd::prelude::*;
use crate::text::{chars_of, str_eq};

verus! {

/// How what a property points at is made ready for upload.
#[derive(Clone, Copy, Debug, PartialEq, Eq, Structural)]
pub enum PackageStrategy {
    /// It is a template: it is packaged in turn, and uploaded as text.
    Template,
    /// It is a file or a directory: it is zipped.
    Zip,
}

/// The form in which a property refers to an uploaded object.
#[derive(Clone, Copy, Debug, PartialEq, Eq)]
pub enum ReferenceShape {
    /// The URI of the object, as a string.
    Uri,
    /// A mapping with the bucket under one name and the key under another.
    BucketAndKey { bucket_name: &'static str, key_name: &'static str },
}

/// A property that may point at local files.
#[derive(Clone, Copy, Debug, PartialEq, Eq)]
pub struct PackageableProperty {
    /// The type of the resources that have the property.
    pub resource_type: &'static str,
    /// The name of the property.
    pub name: &'static str,
    pub strategy: PackageStrategy,
    pub shape: ReferenceShape,
}

/// What an upload came to.
#[derive(Debug, PartialEq, Eq)]
pub struct UploadOutput {
    /// The URI of the object.
    pub uri: String,
    /// The key of the object in its bucket.
    pub key: String,
}

/// A reference to an uploaded object, ready to be written into a template.
#[derive(Debug, PartialEq, Eq)]
pub enum S3Reference {
    Uri(String),
    BucketAndKey { bucket_name: &'static str, bucket: String, key_name: &'static str, key: String },
}

/// A [`PackageableProperty`] as text.
pub struct PropertyView {
    pub resource_type: Seq<char>,
    pub name: Seq<char>,
    pub strategy: PackageStrategy,
    /// The names under which bucket and key go, unless the reference is a
    /// URI.
    pub names: Option<(Seq<char>, Seq<char>)>,
}

impl View for PackageableProperty {
    type V = PropertyView;

    open spec fn view(&self) -> PropertyView {
        PropertyView {
            resource_type: self.resource_type@,
            name: self.name@,
            strategy: self.strategy,
            names: match self.shape {
                ReferenceShape::Uri => None,
                ReferenceShape::BucketAndKey { bucket_name, key_name } => Some(
                    (bucket_name@, key_name@),
                ),
            },
        }
    }
}

/// The packageable property of resources of the given type, if they have
/// one: the template of a nested stack, and the code of a function.
pub open spec fn property_of(resource_type: Seq<char>) -> Option<PropertyView> {
    if resource_type == "AWS::CloudFormation::Stack"@ {
        Some(
            PropertyView {
                resource_type,
                name: "TemplateURL"@,
                strategy: PackageStrategy::Template,
                names: None,
            },
        )
    } else if resource_type == "AWS::Lambda::Function"@ {
        Some(
            PropertyView {
                resource_type,
                name: "Code"@,
                strategy: PackageStrategy::Zip,
                names: Some(("S3Bucket"@, "S3Key"@)),
            },
        )
    } else if resource_type == "AWS::Serverless::Function"@ {
        Some(
            PropertyView {
                resource_type,
                name: "CodeUri"@,
                strategy: PackageStrategy::Zip,
                names: Some(("Bucket"@, "Key"@)),
            },
        )
    } else {
        None
    }
}

/// Looks up the packageable property of resources of the given type.
pub fn packageable_property(resource_type: &str) -> (r: Option<PackageableProperty>)
    ensures
        match r {
            Some(property) => property_of(resource_type@) == Some(property@),
            None => property_of(resource_type@).is_none(),
        },
{
    if str_eq(resource_type, "AWS::CloudFormation::Stack") {
        Some(
            PackageableProperty {
                resource_type: "AWS::CloudFormation::Stack",
                name: "TemplateURL",
                strategy: PackageStrategy::Template,
                shape: ReferenceShape::Uri,
            },
        )
    } else if str_eq(resource_type, "AWS::Lambda::Function") {
        Some(
            PackageableProperty {
                resource_type: "AWS::Lambda::Function",
                name: "Code",
                strategy: PackageStrategy::Zip,
                shape: ReferenceShape::BucketAndKey { bucket_name: "S3Bucket", key_name: "S3Key" },
            },
        )
    } else if str_eq(resource_type, "AWS::Serverless::Function") {
        Some(
            PackageableProperty {
                resource_type: "AWS::Serverless::Function",
                name: "CodeUri",
                strategy: PackageStrategy::Zip,
                shape: ReferenceShape::BucketAndKey { bucket_name: "Bucket", key_name: "Key" },
            },
        )
    } else {
        None
    }
}

/// What takes the place of a local path once it has been uploaded: the URI
/// of the object, or its bucket and key under the names that the property
/// wants.
pub fn s3_reference(shape: ReferenceShape, bucket: String, upload: UploadOutput) -> (r: S3Reference)
    ensures
        match shape {
            ReferenceShape::Uri => r == S3Reference::Uri(upload.uri),
            ReferenceShape::BucketAndKey { bucket_name, key_name } => r == (
                S3Reference::BucketAndKey { bucket_name, bucket, key_name, key: upload.key }),
        },
{
    match shape {
        ReferenceShape::Uri => S3Reference::Uri(upload.uri),
        ReferenceShape::BucketAndKey { bucket_name, key_name } => S3Reference::BucketAndKey {
            bucket_name,
            bucket,
            key_name,
            key: upload.key,
        },
    }
}

/// The key of an object named after the digest of its content, under a
/// prefix: the prefix, a slash unless the prefix is empty or ends in one,
/// and the digest.
pub open spec fn key_under(prefix: Seq<char>, digest: Seq<char>) -> Seq<char> {
    if prefix.len() == 0 {
        digest
    } else if prefix.last() == '/' {
        prefix + digest
    } else {
        prefix + "/"@ + digest
    }
}

/// The key under which content with the given digest is stored. No prefix
/// is as good as an empty one.
pub fn object_key(prefix: Option<&str>, digest: &str) -> (r: String)
    ensures
        r@ == key_under(
            match prefix {
                Some(prefix) => prefix@,
                None => Seq::empty(),
            },
            digest@,
        ),
{
    let prefix = match prefix {
        Some(prefix) => prefix,
        None => {
            return digest.to_owned();
        },
    };
    let chars = chars_of(prefix);
    if chars.len() == 0 {
        return digest.to_owned();
    }
    let mut key = prefix.to_owned();
    if chars[chars.len() - 1] != '/' {
        key.append("/");
    }
    key.append(digest);
    key
}

} // verus!
