use celebrimbor::libvirt::LibvirtHypervisor;

#[test]
fn libvirt_extracts_xml_attributes_with_either_quote_style() {
    assert_eq!(
        LibvirtHypervisor::xml_attribute("<mac address='52:54:00:12:34:56'/>", "mac", "address"),
        Some("52:54:00:12:34:56".to_owned())
    );
    assert_eq!(
        LibvirtHypervisor::xml_attribute("<type arch=\"aarch64\">hvm</type>", "type", "arch"),
        Some("aarch64".to_owned())
    );
}

#[test]
fn libvirt_extracts_backing_image_from_libvirt_volume_xml() {
    let xml = r#"<volume>
  <target><format type='qcow2'/></target>
  <backingStore>
    <format type='qcow2'/>
    <source file='/var/lib/libvirt/images/celebrimbor/src/ubuntu-24.04-arm64.qcow2'/>
  </backingStore>
</volume>"#;

    assert_eq!(
        LibvirtHypervisor::backing_image(xml),
        Some("ubuntu-24.04-arm64.qcow2".to_owned())
    );
}

#[test]
fn domain_extracts_xml_attributes_with_either_quote_style() {
    assert_eq!(
        LibvirtHypervisor::xml_attribute("<mac address='52:54:00:12:34:56'/>", "mac", "address"),
        Some("52:54:00:12:34:56".to_owned())
    );
    assert_eq!(
        LibvirtHypervisor::xml_attribute("<type arch=\"aarch64\">hvm</type>", "type", "arch"),
        Some("aarch64".to_owned())
    );
}

#[test]
fn domain_extracts_backing_image_from_libvirt_volume_xml() {
    let xml = r#"<volume>
  <target><format type='qcow2'/></target>
  <backingStore>
    <format type='qcow2'/>
    <source file='/var/lib/libvirt/images/celebrimbor/src/ubuntu-24.04-arm64.qcow2'/>
  </backingStore>
</volume>"#;

    assert_eq!(
        LibvirtHypervisor::backing_image(xml),
        Some("ubuntu-24.04-arm64.qcow2".to_owned())
    );
}

#[test]
fn xml_attribute_is_absent_without_element_attribute_or_quote() {
    assert_eq!(LibvirtHypervisor::xml_attribute("<disk type='file'/>", "mac", "address"), None);
    assert_eq!(LibvirtHypervisor::xml_attribute("<mac other='x'/>", "mac", "address"), None);
    assert_eq!(LibvirtHypervisor::xml_attribute("<mac address=x/>", "mac", "address"), None);
    assert_eq!(LibvirtHypervisor::xml_attribute("<mac address='x", "mac", "address"), None);
    assert_eq!(LibvirtHypervisor::xml_attribute("<mac address='x/>", "mac", "address"), None);
    assert_eq!(LibvirtHypervisor::xml_attribute("<mac address=", "mac", "address"), None);
}

#[test]
fn xml_attribute_reads_only_the_first_matching_tag() {
    let xml = "<format type='qcow2'/><format type='raw'/>";
    assert_eq!(LibvirtHypervisor::xml_attribute(xml, "format", "type"), Some("qcow2".to_owned()));
    assert_eq!(
        LibvirtHypervisor::xml_attribute("<source file=\"/a'b\"/>", "source", "file"),
        Some("/a'b".to_owned())
    );
}

#[test]
fn backing_image_reads_path_value_and_path_text() {
    let by_value = "<volume><backingStore><path value='/images/a.qcow2'/></backingStore></volume>";
    assert_eq!(LibvirtHypervisor::backing_image(by_value), Some("a.qcow2".to_owned()));
    let by_text = "<volume><backingStore>\n<path>/images/src/b.img</path>\n</backingStore></volume>";
    assert_eq!(LibvirtHypervisor::backing_image(by_text), Some("b.img".to_owned()));
    assert_eq!(LibvirtHypervisor::backing_image("<volume><path>/x/c</path></volume>"), None);
    assert_eq!(LibvirtHypervisor::backing_image("<backingStore><path>/x/..</path>"), None);
    assert_eq!(LibvirtHypervisor::backing_image("<backingStore><path>/x/y/.</path>"), Some("y".to_owned()));
}
