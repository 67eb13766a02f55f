use cfn_deploy::package::{
    object_key, packageable_property, s3_reference, PackageStrategy, PackageableProperty,
    ReferenceShape, S3Reference, UploadOutput,
};

fn upload() -> UploadOutput {
    UploadOutput {
        uri: "https://bucket.s3.amazonaws.com/prefix/abc".to_string(),
        key: "prefix/abc".to_string(),
    }
}

#[test]
fn the_template_of_a_nested_stack_is_packaged_as_a_template() {
    assert_eq!(
        packageable_property("AWS::CloudFormation::Stack"),
        Some(PackageableProperty {
            resource_type: "AWS::CloudFormation::Stack",
            name: "TemplateURL",
            strategy: PackageStrategy::Template,
            shape: ReferenceShape::Uri,
        })
    );
}

#[test]
fn the_code_of_a_function_is_zipped() {
    assert_eq!(
        packageable_property("AWS::Lambda::Function"),
        Some(PackageableProperty {
            resource_type: "AWS::Lambda::Function",
            name: "Code",
            strategy: PackageStrategy::Zip,
            shape: ReferenceShape::BucketAndKey { bucket_name: "S3Bucket", key_name: "S3Key" },
        })
    );
    assert_eq!(
        packageable_property("AWS::Serverless::Function"),
        Some(PackageableProperty {
            resource_type: "AWS::Serverless::Function",
            name: "CodeUri",
            strategy: PackageStrategy::Zip,
            shape: ReferenceShape::BucketAndKey { bucket_name: "Bucket", key_name: "Key" },
        })
    );
}

#[test]
fn other_resources_have_nothing_to_package() {
    assert_eq!(packageable_property("AWS::S3::Bucket"), None);
    assert_eq!(packageable_property("aws::lambda::function"), None);
    assert_eq!(packageable_property(""), None);
}

#[test]
fn references_take_the_shape_that_the_property_wants() {
    assert_eq!(
        s3_reference(ReferenceShape::Uri, "bucket".to_string(), upload()),
        S3Reference::Uri("https://bucket.s3.amazonaws.com/prefix/abc".to_string())
    );
    assert_eq!(
        s3_reference(
            ReferenceShape::BucketAndKey { bucket_name: "S3Bucket", key_name: "S3Key" },
            "bucket".to_string(),
            upload()
        ),
        S3Reference::BucketAndKey {
            bucket_name: "S3Bucket",
            bucket: "bucket".to_string(),
            key_name: "S3Key",
            key: "prefix/abc".to_string(),
        }
    );
}

#[test]
fn object_keys() {
    assert_eq!(object_key(None, "abc"), "abc");
    assert_eq!(object_key(Some(""), "abc"), "abc");
    assert_eq!(object_key(Some("prefix"), "abc"), "prefix/abc");
    assert_eq!(object_key(Some("prefix/"), "abc"), "prefix/abc");
    assert_eq!(object_key(Some("a/b"), "abc"), "a/b/abc");
    assert_eq!(object_key(Some("a//"), "abc"), "a//abc");
    assert_eq!(object_key(Some("/"), "abc"), "/abc");
    assert_eq!(object_key(Some("préfixe"), "abc"), "préfixe/abc");
}

#[test]
fn object_keys_are_what_joining_paths_gives() {
    for prefix in ["", "prefix", "prefix/", "a/b", "a//", "/"] {
        let joined = std::path::Path::new(prefix)
            .join("abc")
            .to_string_lossy()
            .into_owned();
        assert_eq!(object_key(Some(prefix), "abc"), joined);
    }
}
