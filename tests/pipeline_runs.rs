use std::collections::BTreeMap;

use image_customizer::command::{Failure, Invocation};
use image_customizer::pipeline::{Action, Event, Pipeline, Stage};
use image_customizer::resolver::FileStep;

/// A host and guest simulated closely enough to follow one run.
struct World {
    files: BTreeMap<String, String>,
    mounts: Vec<(String, String)>,
    bound: Option<String>,
    sources: Vec<String>,
    installed: Vec<String>,
    sources_during_install: Vec<String>,
    log: Vec<String>,
    fail_program: Option<(String, String, String)>,
    missing_partitions: Vec<String>,
    mount_attempts: Vec<String>,
}

impl World {
    fn new(os_release: &str, with_resolver: bool) -> World {
        let mut files = BTreeMap::new();
        files.insert("/work/rootfs/etc/os-release".to_string(), os_release.to_string());
        if with_resolver {
            files.insert("/work/rootfs/etc/resolv.conf".to_string(), "nameserver 10.0.0.2\n".to_string());
        }
        World {
            files,
            mounts: Vec::new(),
            bound: None,
            sources: vec!["main".to_string()],
            installed: Vec::new(),
            sources_during_install: Vec::new(),
            log: Vec::new(),
            fail_program: None,
            missing_partitions: Vec::new(),
            mount_attempts: Vec::new(),
        }
    }

    fn line(cmd: &Invocation) -> String {
        let mut s = cmd.program.clone();
        for a in &cmd.args {
            s.push(' ');
            s.push_str(a);
        }
        s
    }

    fn run(&mut self, cmd: &Invocation) -> Event {
        let line = World::line(cmd);
        self.log.push(line.clone());
        if let Some((needle, context, stderr)) = &self.fail_program {
            if line.contains(needle.as_str()) {
                return Event::Failed(Failure::new(context, Some(1), "", stderr));
            }
        }
        let args: Vec<&str> = cmd.args.iter().map(|a| a.as_str()).collect();
        match cmd.program.as_str() {
            "qemu-nbd" if args.len() == 5 && args[2] == "--connect" => {
                self.bound = Some(args[3].to_string());
            }
            "qemu-nbd" if args[0] == "--disconnect" => {
                if self.bound.as_deref() == Some(args[1]) {
                    self.bound = None;
                }
            }
            "mount" => {
                self.mount_attempts.push(args[0].to_string());
                if self.missing_partitions.iter().any(|p| p == args[0]) {
                    return Event::Failed(Failure::new("mount", Some(32), "", "special device does not exist"));
                }
                self.mounts.push((args[0].to_string(), args[1].to_string()));
            }
            "umount" => {
                let root = args[1].to_string();
                let below = format!("{}/", root);
                self.mounts.retain(|(_, t)| !(t == &root || t.starts_with(&below)));
            }
            "systemd-nspawn" => {
                let words = &args[2..];
                if words[0] == "apt-add-repository" {
                    let entry = if words.contains(&"--pocket") {
                        "proposed".to_string()
                    } else {
                        words[words.len() - 1].to_string()
                    };
                    if words.contains(&"--remove") {
                        self.sources.retain(|s| s != &entry);
                    } else {
                        self.sources.push(entry);
                    }
                } else if words[0] == "apt-get" && words[1] == "install" {
                    self.installed.push(words[3].to_string());
                    self.sources_during_install = self.sources.clone();
                }
            }
            _ => {}
        }
        Event::Done(String::new())
    }

    fn perform(&mut self, action: &Action) -> Event {
        match action {
            Action::Download { .. } => Event::Done(String::new()),
            Action::Run { command, .. } => self.run(command),
            Action::Mount { command, .. } => self.run(command),
            Action::AwaitDevice { path } => Event::Answer(self.bound.is_some() && path.ends_with("p1")),
            Action::Exists { path } => Event::Answer(self.files.contains_key(path)),
            Action::Change { step } => {
                match step {
                    FileStep::Rename { from, to } => {
                        let content = self.files.remove(from).unwrap();
                        self.files.insert(to.clone(), content);
                    }
                    FileStep::Write { path, text } => {
                        self.files.insert(path.clone(), text.clone());
                    }
                }
                Event::Done(String::new())
            }
            Action::Read { path } => match self.files.get(path) {
                Some(t) => Event::Done(t.clone()),
                None => Event::Failed(Failure::new("read", None, "", "no such file")),
            },
            Action::Cleanup { command } => {
                let _ = self.run(command);
                Event::Done(String::new())
            }
            Action::Finish => Event::Done(String::new()),
        }
    }
}

fn drive(p: &mut Pipeline, w: &mut World) -> Vec<Stage> {
    let mut stages = Vec::new();
    for _ in 0..200 {
        stages.push(p.stage);
        let action = p.action();
        if let Action::Finish = action {
            return stages;
        }
        let event = w.perform(&action);
        p.advance(event);
    }
    panic!("the run did not finish");
}

const JAMMY: &str = "NAME=\"Ubuntu\"\nVERSION_ID=\"22.04\"\nVERSION_CODENAME=jammy\nID=ubuntu\n";

#[test]
fn local_raw_image_with_htop() {
    let mut p = Pipeline::new("/images/jammy-server.img", "raw", "htop", false, None, "/work", "/dev/nbd0");
    let mut w = World::new(JAMMY, true);
    drive(&mut p, &mut w);
    assert!(p.failure.is_none());
    assert_eq!(p.layout.output, "jammy-server_htop.img");
    assert_eq!(p.release.as_deref(), Some("jammy"));
    assert_eq!(w.installed, vec!["htop".to_string()]);
    assert!(!w.files.contains_key("/work/rootfs/etc/resolv.conf.bak"));
    assert_eq!(w.files.get("/work/rootfs/etc/resolv.conf").unwrap(), "nameserver 10.0.0.2\n");
    assert!(w.mounts.is_empty());
    assert!(w.bound.is_none());
    assert_eq!(w.log[0], "cp /images/jammy-server.img /work/vm_image.img");
    assert_eq!(w.log[1], "modprobe nbd");
    assert_eq!(w.log[2], "qemu-nbd --format raw --connect /dev/nbd0 /work/vm_image.img");
    assert_eq!(w.log.last().unwrap(), "cp /work/vm_image.img jammy-server_htop.img");
    assert!(w.log.contains(&"umount -R /work/rootfs".to_string()));
    assert!(w.log.contains(&"qemu-nbd --disconnect /dev/nbd0".to_string()));
}

#[test]
fn staging_install_of_curl() {
    let mut p = Pipeline::new("https://cloud-images.example/jammy.img", "qcow2", "curl", true, None, "/work", "/dev/nbd0");
    let mut w = World::new(JAMMY, true);
    let stages = drive(&mut p, &mut w);
    assert_eq!(stages[0], Stage::Fetch);
    assert!(p.failure.is_none());
    assert_eq!(p.layout.output, "jammy_curl_proposed.img");
    assert_eq!(w.installed, vec!["curl/jammy-proposed".to_string()]);
    assert!(w.sources_during_install.contains(&"proposed".to_string()));
    assert_eq!(w.sources, vec!["main".to_string()]);
    let enable = w.log.iter().position(|l| l.contains("apt-add-repository --yes --no-update")).unwrap();
    let install = w.log.iter().position(|l| l.contains("apt-get install")).unwrap();
    let disable = w.log.iter().position(|l| l.ends_with("--remove")).unwrap();
    assert!(enable < install && install < disable);
}

#[test]
fn attach_failure_releases_nothing() {
    let mut p = Pipeline::new("/images/noble.img", "qcow2", "htop", false, None, "/work", "/dev/nbd0");
    let mut w = World::new(JAMMY, true);
    w.fail_program = Some((
        "--connect".to_string(),
        "Failed to connect image to NBD device".to_string(),
        "qemu-nbd: Failed to set NBD socket: Device or resource busy".to_string(),
    ));
    drive(&mut p, &mut w);
    let f = p.failure.as_ref().unwrap();
    assert_eq!(f.stderr, "qemu-nbd: Failed to set NBD socket: Device or resource busy");
    assert_eq!(f.code, Some(1));
    assert!(w.mount_attempts.is_empty());
    assert!(!w.log.iter().any(|l| l.starts_with("umount")));
    assert!(!w.log.iter().any(|l| l.contains("--disconnect")));
    assert_eq!(p.stage, Stage::Finished);
}

#[test]
fn boot_partition_from_the_other_slot() {
    let mut p = Pipeline::new("/images/noble.img", "qcow2", "htop", false, None, "/work", "/dev/nbd0");
    let mut w = World::new(JAMMY, false);
    w.missing_partitions.push("/dev/nbd0p13".to_string());
    drive(&mut p, &mut w);
    assert!(p.failure.is_none());
    assert_eq!(
        w.mount_attempts,
        vec!["/dev/nbd0p1", "/dev/nbd0p13", "/dev/nbd0p16", "/dev/nbd0p15"]
    );
    assert_eq!(w.installed, vec!["htop".to_string()]);
}

#[test]
fn both_boot_slots_missing_fails_and_unmounts() {
    let mut p = Pipeline::new("/images/noble.img", "qcow2", "htop", false, None, "/work", "/dev/nbd0");
    let mut w = World::new(JAMMY, false);
    w.missing_partitions.push("/dev/nbd0p13".to_string());
    w.missing_partitions.push("/dev/nbd0p16".to_string());
    drive(&mut p, &mut w);
    assert!(p.failure.is_some());
    assert!(w.mounts.is_empty());
    assert!(w.bound.is_none());
    assert!(w.installed.is_empty());
}

#[test]
fn install_failure_still_tears_down() {
    let mut p = Pipeline::new("/images/jammy.img", "qcow2", "nosuchpkg", false, Some("ppa:team/tools".to_string()), "/work", "/dev/nbd0");
    let mut w = World::new(JAMMY, true);
    w.fail_program = Some(("apt-get install".to_string(), "install".to_string(), "E: Unable to locate package".to_string()));
    drive(&mut p, &mut w);
    assert_eq!(p.failure.as_ref().unwrap().stderr, "E: Unable to locate package");
    assert!(w.mounts.is_empty());
    assert!(w.bound.is_none());
    assert!(w.sources.contains(&"ppa:team/tools".to_string()));
    assert!(!w.log.iter().any(|l| l.starts_with("cp /work/vm_image.img")));
}

#[test]
fn guest_without_resolver_keeps_no_backup() {
    let mut p = Pipeline::new("/images/jammy.img", "qcow2", "htop", false, None, "/work", "/dev/nbd0");
    let mut w = World::new(JAMMY, false);
    drive(&mut p, &mut w);
    assert!(p.failure.is_none());
    assert!(!w.files.contains_key("/work/rootfs/etc/resolv.conf.bak"));
    assert_eq!(w.files.get("/work/rootfs/etc/resolv.conf").unwrap(), "nameserver 1.1.1.1\n");
}

#[test]
fn missing_codename_fails() {
    let mut p = Pipeline::new("/images/jammy.img", "qcow2", "htop", false, None, "/work", "/dev/nbd0");
    let mut w = World::new("NAME=\"Ubuntu\"\n", true);
    drive(&mut p, &mut w);
    let f = p.failure.as_ref().unwrap();
    assert_eq!(f.context, "Failed to determine release name from /etc/os-release");
    assert!(w.mounts.is_empty());
    assert!(w.bound.is_none());
}

#[test]
fn device_that_never_appears_times_out() {
    let mut p = Pipeline::new("/images/jammy.img", "qcow2", "htop", false, None, "/work", "/dev/nbd0");
    for _ in 0..3 {
        p.advance(Event::Done(String::new()));
    }
    assert_eq!(p.stage, Stage::AwaitDevice);
    let mut n = 0;
    while p.stage == Stage::AwaitDevice {
        p.advance(Event::Answer(false));
        n += 1;
    }
    assert_eq!(n, 20);
    assert_eq!(p.failure.as_ref().unwrap().context, "Device partitions did not appear");
    assert_eq!(p.stage, Stage::Teardown);
    match p.action() {
        Action::Cleanup { command } => {
            assert_eq!(command.program, "qemu-nbd");
            assert_eq!(command.args, vec!["--disconnect", "/dev/nbd0"]);
        }
        _ => panic!("expected the device to be released"),
    }
}

fn first_context(p: &mut Pipeline, w: &mut World, program: &str) -> Option<String> {
    for _ in 0..200 {
        let action = p.action();
        match &action {
            Action::Finish => return None,
            Action::Run { command, context } | Action::Mount { command, context, .. } => {
                if World::line(command).contains(program) {
                    return Some(context.clone());
                }
            }
            _ => {}
        }
        let event = w.perform(&action);
        p.advance(event);
    }
    None
}

#[test]
fn failure_texts_name_the_step() {
    let mut p = Pipeline::new("/images/jammy.img", "qcow2", "curl", true, Some("ppa:a/b".to_string()), "/work", "/dev/nbd2");
    let mut w = World::new(JAMMY, true);
    assert_eq!(first_context(&mut p, &mut w, "modprobe").unwrap(), "Failed to load nbd kernel module");
    assert_eq!(first_context(&mut p, &mut w, "--connect").unwrap(), "Failed to connect image to NBD device");
    assert_eq!(first_context(&mut p, &mut w, "nbd2p1").unwrap(), "Failed to mount /dev/nbd2p1 to /work/rootfs");
    assert_eq!(first_context(&mut p, &mut w, "nbd2p13").unwrap(), "Failed to mount /dev/nbd2p13 to /work/rootfs/boot");
    assert_eq!(first_context(&mut p, &mut w, "nbd2p15").unwrap(), "Failed to mount /dev/nbd2p15 to /work/rootfs/boot/efi");
    assert_eq!(first_context(&mut p, &mut w, "--no-update --uri").unwrap(), "Failed to add proposed repository");
    assert_eq!(first_context(&mut p, &mut w, "--no-update --yes ppa:a/b").unwrap(), "Failed to add PPA ppa:a/b");
    assert_eq!(first_context(&mut p, &mut w, "update -y").unwrap(), "Failed to install package curl/jammy-proposed");
    assert_eq!(first_context(&mut p, &mut w, "install -y").unwrap(), "Failed to install package curl/jammy-proposed");
    assert_eq!(first_context(&mut p, &mut w, "universe --remove").unwrap(), "Failed to remove proposed repository");
    assert_eq!(first_context(&mut p, &mut w, "--remove ppa:a/b").unwrap(), "Failed to remove PPA ppa:a/b");
    assert_eq!(first_context(&mut p, &mut w, "cp /work/vm_image.img").unwrap(), "Failed to copy final image.");
    assert!(w.log.contains(&"qemu-nbd --disconnect /dev/nbd2".to_string()));
}

#[test]
fn copy_failure_names_the_source() {
    let mut p = Pipeline::new("/images/jammy.img", "qcow2", "htop", false, None, "/work", "/dev/nbd0");
    match p.action() {
        Action::Run { context, .. } => assert_eq!(context, "Failed to copy local image file from /images/jammy.img"),
        _ => panic!("expected a copy"),
    }
    p.advance(Event::Failed(Failure::new("Failed to copy local image file from /images/jammy.img", Some(1), "", "cp: cannot stat")));
    assert_eq!(p.stage, Stage::Finished);
    assert_eq!(p.failure.as_ref().unwrap().stderr, "cp: cannot stat");
}
