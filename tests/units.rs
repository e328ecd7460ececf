use image_customizer::block::{connect_command, disconnect_command, load_module_command};
use image_customizer::command::{complete_command, Invocation};
use image_customizer::mounts::{mount_command, partition_device, unmount_all_command};
use image_customizer::naming::{
    is_remote, lxd_format_supported, lxd_metadata, output_image_name, signed_decimal_string,
    tarball_command, tarball_path,
};
use image_customizer::release::{get_release, parse_codename};
use image_customizer::repository::{
    add_ppa, disable_proposed_repository, enable_proposed_repository, in_guest, install,
    package_commands, package_selector, refresh_index, remove_ppa,
};
use image_customizer::resolver::{backup_path, override_plan, resolver_path, restore_plan, FileStep};
use image_customizer::teardown::teardown_commands;
use image_customizer::text::{decimal_string, join, starts_with};

fn words(i: &Invocation) -> Vec<&str> {
    let mut v = vec![i.program.as_str()];
    v.extend(i.args.iter().map(|a| a.as_str()));
    v
}

#[test]
fn decimal_notation() {
    assert_eq!(decimal_string(0), "0");
    assert_eq!(decimal_string(7), "7");
    assert_eq!(decimal_string(15), "15");
    assert_eq!(decimal_string(18446744073709551615), "18446744073709551615");
    assert_eq!(signed_decimal_string(-42), "-42");
    assert_eq!(signed_decimal_string(i64::MIN), "-9223372036854775808");
    assert_eq!(signed_decimal_string(1700000000), "1700000000");
}

#[test]
fn prefixes_and_joins() {
    assert!(starts_with("VERSION_CODENAME=x", "VERSION_CODENAME="));
    assert!(!starts_with("VERSION", "VERSION_CODENAME="));
    assert!(starts_with("", ""));
    assert_eq!(join("/tmp/w", "rootfs"), "/tmp/w/rootfs");
}

#[test]
fn remote_locations() {
    assert!(is_remote("http://example.com/a.img"));
    assert!(is_remote("https://example.com/a.img"));
    assert!(!is_remote("/srv/images/a.img"));
    assert!(!is_remote("ftp://example.com/a.img"));
    assert!(!is_remote("http:/"));
}

#[test]
fn command_outcome() {
    let ok = complete_command("ctx", true, Some(0), "  /dev/nbd0 \n", "");
    assert_eq!(ok.ok().unwrap(), "/dev/nbd0");
    let err = complete_command("Failed to mount", false, Some(32), "out", "mount: busy");
    let f = err.err().unwrap();
    assert_eq!(f.context, "Failed to mount");
    assert_eq!(f.code, Some(32));
    assert_eq!(f.stdout, "out");
    assert_eq!(f.stderr, "mount: busy");
    let killed = complete_command("ctx", false, None, "", "");
    assert_eq!(killed.err().unwrap().code, None);
}

#[test]
fn block_device_commands() {
    assert_eq!(words(&load_module_command()), vec!["modprobe", "nbd"]);
    for format in ["qcow2", "raw", "vpc"] {
        let c = connect_command("/w/vm_image.img", format, "/dev/nbd0");
        assert_eq!(
            words(&c),
            vec!["qemu-nbd", "--format", format, "--connect", "/dev/nbd0", "/w/vm_image.img"]
        );
    }
    assert_eq!(words(&disconnect_command("/dev/nbd0")), vec!["qemu-nbd", "--disconnect", "/dev/nbd0"]);
}

#[test]
fn partitions_and_mounts() {
    assert_eq!(partition_device("/dev/nbd0", 1), "/dev/nbd0p1");
    assert_eq!(partition_device("/dev/nbd0", 13), "/dev/nbd0p13");
    assert_eq!(partition_device("/dev/nbd0", 16), "/dev/nbd0p16");
    assert_eq!(words(&mount_command("/dev/nbd0p15", "/r/boot/efi")), vec!["mount", "/dev/nbd0p15", "/r/boot/efi"]);
    assert_eq!(words(&unmount_all_command("/r")), vec!["umount", "-R", "/r"]);
}

#[test]
fn teardown_order() {
    let t = teardown_commands("/w/rootfs", true, Some("/dev/nbd0"));
    assert_eq!(t.len(), 2);
    assert_eq!(words(&t[0]), vec!["umount", "-R", "/w/rootfs"]);
    assert_eq!(words(&t[1]), vec!["qemu-nbd", "--disconnect", "/dev/nbd0"]);
    assert!(teardown_commands("/w/rootfs", false, None).is_empty());
    let d = teardown_commands("/w/rootfs", false, Some("/dev/nbd0"));
    assert_eq!(words(&d[0]), vec!["qemu-nbd", "--disconnect", "/dev/nbd0"]);
}

#[test]
fn repository_commands_mirror() {
    assert_eq!(
        words(&add_ppa("/r", "ppa:team/tools")),
        vec!["systemd-nspawn", "-D", "/r", "apt-add-repository", "--no-update", "--yes", "ppa:team/tools"]
    );
    assert_eq!(
        words(&remove_ppa("/r", "ppa:team/tools")),
        vec!["systemd-nspawn", "-D", "/r", "apt-add-repository", "--yes", "--remove", "ppa:team/tools"]
    );
    let staging = [
        "--uri",
        "http://archive.ubuntu.com/ubuntu/",
        "--pocket",
        "proposed",
        "--component",
        "main",
        "--component",
        "universe",
    ];
    let mut on = vec!["systemd-nspawn", "-D", "/r", "apt-add-repository", "--yes", "--no-update"];
    on.extend(staging);
    assert_eq!(words(&enable_proposed_repository("/r")), on);
    let mut off = vec!["systemd-nspawn", "-D", "/r", "apt-add-repository", "--yes"];
    off.extend(staging);
    off.push("--remove");
    assert_eq!(words(&disable_proposed_repository("/r")), off);
    assert_eq!(words(&refresh_index("/r")), vec!["systemd-nspawn", "-D", "/r", "apt-get", "update", "-y"]);
    assert_eq!(words(&install("/r", "htop")), vec!["systemd-nspawn", "-D", "/r", "apt-get", "install", "-y", "htop"]);
    let g = in_guest("/r", &vec!["true".to_string()]);
    assert_eq!(words(&g), vec!["systemd-nspawn", "-D", "/r", "true"]);
}

#[test]
fn package_selection() {
    assert_eq!(package_selector("curl", "jammy", true), "curl/jammy-proposed");
    assert_eq!(package_selector("curl", "jammy", false), "curl");
    let plain = package_commands("/r", "htop", "jammy", false, &None);
    assert_eq!(plain.len(), 2);
    assert_eq!(words(&plain[1]).last().unwrap(), &"htop");
    let full = package_commands("/r", "curl", "noble", true, &Some("ppa:a/b".to_string()));
    assert_eq!(full.len(), 6);
    assert_eq!(words(&full[0])[3..6], ["apt-add-repository", "--yes", "--no-update"]);
    assert_eq!(words(&full[1]).last().unwrap(), &"ppa:a/b");
    assert_eq!(words(&full[3]).last().unwrap(), &"curl/noble-proposed");
    assert_eq!(words(&full[4]).last().unwrap(), &"--remove");
    assert_eq!(words(&full[5])[4..], ["--yes", "--remove", "ppa:a/b"]);
}

#[test]
fn resolver_plans() {
    assert_eq!(resolver_path("/r"), "/r/etc/resolv.conf");
    assert_eq!(backup_path("/r"), "/r/etc/resolv.conf.bak");
    let with = override_plan("/r", true);
    assert_eq!(with.len(), 2);
    match &with[0] {
        FileStep::Rename { from, to } => {
            assert_eq!(from, "/r/etc/resolv.conf");
            assert_eq!(to, "/r/etc/resolv.conf.bak");
        }
        _ => panic!("expected a backup first"),
    }
    match &with[1] {
        FileStep::Write { path, text } => {
            assert_eq!(path, "/r/etc/resolv.conf");
            assert_eq!(text, "nameserver 1.1.1.1\n");
        }
        _ => panic!("expected the override"),
    }
    assert_eq!(override_plan("/r", false).len(), 1);
    assert!(restore_plan("/r", false).is_empty());
    match &restore_plan("/r", true)[0] {
        FileStep::Rename { from, to } => {
            assert_eq!(from, "/r/etc/resolv.conf.bak");
            assert_eq!(to, "/r/etc/resolv.conf");
        }
        _ => panic!("expected the backup to move back"),
    }
}

#[test]
fn release_names() {
    assert_eq!(get_release("ID=ubuntu\nVERSION_CODENAME=jammy\n").as_deref(), Some("jammy"));
    assert_eq!(get_release("VERSION_CODENAME=\"Noble\"\r\nID=ubuntu").as_deref(), Some("noble"));
    assert_eq!(get_release("VERSION_CODENAME=a=b").as_deref(), Some("a"));
    assert_eq!(get_release("UBUNTU_CODENAME=jammy\n"), None);
    assert_eq!(get_release(""), None);
    assert_eq!(parse_codename("X=1\nVERSION_CODENAME=\"\"Focal\"\nVERSION_CODENAME=other").as_deref(), Some("Focal"));
    assert_eq!(parse_codename("VERSION_CODENAME=").as_deref(), Some(""));
}

#[test]
fn output_names() {
    assert_eq!(output_image_name("/srv/jammy-server-cloudimg-amd64.img", "htop", false), "jammy-server-cloudimg-amd64_htop.img");
    assert_eq!(output_image_name("https://h/x/noble.img", "curl", true), "noble_curl_proposed.img");
    assert_eq!(output_image_name("disk.img.img", "vim", false), "disk_vim.img");
    assert_eq!(output_image_name("disk.qcow2", "vim", false), "disk.qcow2_vim.img");
    assert_eq!(output_image_name("dir/", "vim", false), "_vim.img");
}

#[test]
fn container_archive() {
    assert_eq!(tarball_path("jammy_htop.img"), "jammy_htop.tar.gz");
    assert_eq!(tarball_path("a.b/noext"), "a.b/noext.tar.gz");
    assert_eq!(tarball_path(".hidden"), ".hidden.tar.gz");
    assert_eq!(tarball_path("x/y.z.img"), "x/y.z.tar.gz");
    assert_eq!(
        words(&tarball_command("jammy_htop.img", "jammy_htop.tar.gz")),
        vec!["tar", "--transform", "flags=r;s/.*.img/rootfs.img/", "-czf", "jammy_htop.tar.gz", "metadata.yaml", "jammy_htop.img"]
    );
    assert!(lxd_format_supported("qcow2"));
    assert!(!lxd_format_supported("raw"));
    assert!(!lxd_format_supported("qcow2x"));
}

#[test]
fn container_metadata() {
    assert_eq!(
        lxd_metadata("htop", "jammy", true, 1700000000),
        "architecture: x86_64\ncreation_date: 1700000000\nproperties:\n  description: \"Ubuntu jammy with htop (proposed)\"\n  os: Ubuntu\n  release: \"jammy\"\n"
    );
    assert_eq!(
        lxd_metadata("vim", "noble", false, 5),
        "architecture: x86_64\ncreation_date: 5\nproperties:\n  description: \"Ubuntu noble with vim\"\n  os: Ubuntu\n  release: \"noble\"\n"
    );
}

#[test]
fn trimming_white_space() {
    let ok = complete_command("ctx", true, Some(0), "\u{3000}\t jammy\u{a0}\r\n", "");
    assert_eq!(ok.ok().unwrap(), "jammy");
    let inner = complete_command("ctx", true, Some(0), "a b", "");
    assert_eq!(inner.ok().unwrap(), "a b");
}
