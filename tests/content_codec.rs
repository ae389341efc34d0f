use rules_minidock_tools::container_specs::blob_reference::{
    blob_media_type, parse_media_type, BlobReference, BlobReferenceType, RawBlobReference,
};
use rules_minidock_tools::container_specs::manifest::{merge_manifest, Manifest, ManifestMergeError, RawManifest};
use rules_minidock_tools::container_specs::{CodecError, SpecificationType};
use rules_minidock_tools::hash::{compression_of, Compression, DataLen, Sha256Value};

const HELLO_HEX: &str = "2cf24dba5fb0a30e26e83b2ac5b9e29e1b161e5c1fa7425e73043362938b9824";

fn all_pairs() -> Vec<(SpecificationType, BlobReferenceType, &'static str)> {
    vec![
        (SpecificationType::Oci, BlobReferenceType::Config, "application/vnd.oci.image.config.v1+json"),
        (SpecificationType::Docker, BlobReferenceType::Config, "application/vnd.docker.container.image.v1+json"),
        (SpecificationType::Oci, BlobReferenceType::LayerGz, "application/vnd.oci.image.layer.v1.tar+gzip"),
        (SpecificationType::Oci, BlobReferenceType::Layer, "application/vnd.oci.image.layer.v1.tar"),
        (SpecificationType::Docker, BlobReferenceType::LayerGz, "application/vnd.docker.image.rootfs.diff.tar.gzip"),
        (SpecificationType::Docker, BlobReferenceType::Layer, "application/vnd.docker.image.rootfs.diff.tar"),
    ]
}

#[test]
fn media_type_table_matches() {
    for (s, k, m) in all_pairs() {
        assert_eq!(blob_media_type(s, k), m);
        assert_eq!(parse_media_type(m), Some((s, k)));
    }
}

#[test]
fn blob_reference_round_trips_for_every_pair() {
    for (s, k, m) in all_pairs() {
        let b = BlobReference {
            blob_reference_type: k,
            specification_type: s,
            size: 1234,
            digest: format!("sha256:{}", HELLO_HEX),
        };
        let raw = b.to_raw();
        assert_eq!(raw.media_type, m);
        assert_eq!(raw.size, 1234);
        let back = BlobReference::from_raw(raw).unwrap();
        assert_eq!(back.blob_reference_type, k);
        assert_eq!(back.specification_type, s);
        assert_eq!(back.size, 1234);
        assert_eq!(back.digest, b.digest);
    }
}

#[test]
fn unknown_media_type_is_refused() {
    let raw = RawBlobReference {
        media_type: "application/octet-stream".to_string(),
        size: 1,
        digest: "sha256:00".to_string(),
    };
    match BlobReference::from_raw(raw) {
        Err(CodecError::UnknownMediaType(m)) => assert_eq!(m, "application/octet-stream"),
        Ok(_) => panic!("accepted an unknown media type"),
    }
}

#[test]
fn manifest_media_types() {
    let mut m = Manifest::default();
    assert_eq!(m.schema_version, 2);
    assert_eq!(m.media_type(), "application/vnd.oci.image.manifest.v1+json");
    m.specification_type = SpecificationType::Docker;
    assert_eq!(m.media_type(), "application/vnd.docker.distribution.manifest.v2+json");
}

#[test]
fn hex_and_digest_of_hello() {
    let v = Sha256Value::of_bytes(b"hello");
    assert_eq!(v.to_hex(), HELLO_HEX);
    assert_eq!(v.digest_string(), format!("sha256:{}", HELLO_HEX));
}

#[test]
fn set_specification_type_reaches_every_reference() {
    let mut m = Manifest::default();
    let v = Sha256Value::of_bytes(b"hello");
    m.add_layer(v, DataLen(10), BlobReferenceType::LayerGz);
    m.add_layer(v, DataLen(20), BlobReferenceType::Layer);
    let d = m.set_specification_type(SpecificationType::Docker);
    assert_eq!(d.specification_type, SpecificationType::Docker);
    assert_eq!(d.config.specification_type, SpecificationType::Docker);
    assert!(d.layers.iter().all(|l| l.specification_type == SpecificationType::Docker));
    assert_eq!(d.layers[1].size, 20);
    let raw = d.to_raw();
    assert_eq!(raw.layers[0].media_type, "application/vnd.docker.image.rootfs.diff.tar.gzip");
    assert_eq!(raw.media_type, "application/vnd.docker.distribution.manifest.v2+json");
}

#[test]
fn update_config_points_at_the_written_config() {
    let mut m = Manifest::default();
    let v = Sha256Value::of_bytes(b"hello");
    m.update_config(v, DataLen(5));
    assert_eq!(m.config.digest, format!("sha256:{}", HELLO_HEX));
    assert_eq!(m.config.size, 5);
    assert_eq!(m.config.blob_reference_type, BlobReferenceType::Config);
}

#[test]
fn manifest_wire_form_is_stable_and_reads_back() {
    let mut m = Manifest::default();
    let v = Sha256Value::of_bytes(b"hello");
    m.update_config(v, DataLen(5));
    m.add_layer(v, DataLen(10), BlobReferenceType::LayerGz);
    let a = m.to_raw();
    let b = m.to_raw();
    assert_eq!(a.media_type, b.media_type);
    assert_eq!(a.config.digest, b.config.digest);
    assert_eq!(a.layers.len(), b.layers.len());
    let back = Manifest::from_raw(a).unwrap();
    assert_eq!(back.layers.len(), 1);
    assert_eq!(back.layers[0].digest, m.layers[0].digest);
    assert_eq!(back.config.size, 5);
}

#[test]
fn manifest_with_unknown_type_is_refused() {
    let raw = RawManifest {
        media_type: "application/vnd.oci.image.config.v1+json".to_string(),
        schema_version: 2,
        config: Manifest::default().config.to_raw(),
        layers: vec![],
    };
    assert!(Manifest::from_raw(raw).is_err());
}

#[test]
fn merging_two_manifests_with_layers_conflicts() {
    let v = Sha256Value::of_bytes(b"hello");
    let mut a = Manifest::default();
    a.add_layer(v, DataLen(1), BlobReferenceType::LayerGz);
    let mut b = Manifest::default();
    b.add_layer(v, DataLen(2), BlobReferenceType::LayerGz);
    assert_eq!(merge_manifest(&mut a, &b), Err(ManifestMergeError::BaseConflict));
    let mut empty = Manifest::default();
    assert_eq!(merge_manifest(&mut empty, &b), Ok(()));
    assert_eq!(empty.layers.len(), 1);
    assert_eq!(empty.layers[0].size, 2);
}

#[test]
fn compression_is_told_by_leading_bytes() {
    assert_eq!(compression_of(&[0x1f, 0x8b, 0x08]), Compression::Gzip);
    assert_eq!(compression_of(&[0x28, 0xb5, 0x2f, 0xfd, 0x00]), Compression::Zstd);
    assert_eq!(compression_of(&[0x28, 0xb5]), Compression::Unknown);
    assert_eq!(compression_of(&[]), Compression::Unknown);
}
