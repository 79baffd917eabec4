use virtualizationservice::command::{crosvm_command, CROSVM_PATH};
use virtualizationservice::config::{validate_config, ConfigError, CrosvmConfig, DiskFile};

fn config() -> CrosvmConfig {
    CrosvmConfig {
        cid: 42,
        bootloader: None,
        kernel: None,
        initrd: None,
        disks: vec![],
        params: None,
        protected: false,
        memory_mib: None,
        log_fd: None,
        indirect_files: vec![],
    }
}

fn strs(v: &[String]) -> Vec<&str> {
    v.iter().map(|s| s.as_str()).collect()
}

#[test]
fn missing_bootloader_and_kernel_is_refused() {
    let c = config();
    assert_eq!(validate_config(&c), Err(ConfigError::MissingImage));
    assert_eq!(crosvm_command(&c).unwrap_err(), ConfigError::MissingImage);
    let mut c = config();
    c.initrd = Some(5);
    c.disks = vec![DiskFile { image: 6, writable: true }];
    assert_eq!(crosvm_command(&c).unwrap_err(), ConfigError::MissingImage);
    assert_eq!(
        ConfigError::MissingImage.message(),
        "VM must have either a bootloader or a kernel image."
    );
}

#[test]
fn bootloader_with_kernel_or_initrd_is_refused() {
    let mut c = config();
    c.bootloader = Some(3);
    c.kernel = Some(4);
    assert_eq!(validate_config(&c), Err(ConfigError::ConflictingImages));
    assert_eq!(crosvm_command(&c).unwrap_err(), ConfigError::ConflictingImages);
    let mut c = config();
    c.bootloader = Some(3);
    c.initrd = Some(4);
    assert_eq!(crosvm_command(&c).unwrap_err(), ConfigError::ConflictingImages);
    assert_eq!(
        ConfigError::ConflictingImages.message(),
        "Can't have both bootloader and kernel/initrd image."
    );
}

#[test]
fn bootloader_invocation() {
    let mut c = config();
    c.bootloader = Some(7);
    assert_eq!(validate_config(&c), Ok(()));
    let cmd = crosvm_command(&c).unwrap();
    assert_eq!(
        strs(&cmd.args),
        vec!["run", "--disable-sandbox", "--cid", "42", "--serial=type=sink", "--bios", "/proc/self/fd/7"]
    );
    assert_eq!(cmd.preserved_fds, vec![7]);
    assert_eq!(cmd.stdout, None);
    assert_eq!(CROSVM_PATH, "/apex/com.android.virt/bin/crosvm");
}

#[test]
fn kernel_invocation_with_every_option() {
    let mut c = config();
    c.cid = 1234;
    c.kernel = Some(10);
    c.initrd = Some(11);
    c.params = Some("console=hvc0 quiet".to_string());
    c.protected = true;
    c.memory_mib = Some(2048);
    c.log_fd = Some(9);
    c.indirect_files = vec![20, 21];
    c.disks = vec![DiskFile { image: 12, writable: false }, DiskFile { image: 13, writable: true }];
    let cmd = crosvm_command(&c).unwrap();
    assert_eq!(
        strs(&cmd.args),
        vec![
            "run",
            "--disable-sandbox",
            "--cid",
            "1234",
            "--protected-vm",
            "--mem",
            "2048",
            "--initrd",
            "/proc/self/fd/11",
            "--params",
            "console=hvc0 quiet",
            "--disk",
            "/proc/self/fd/12",
            "--rwdisk",
            "/proc/self/fd/13",
            "/proc/self/fd/10",
        ]
    );
    assert_eq!(cmd.preserved_fds, vec![20, 21, 11, 12, 13, 10]);
    assert_eq!(cmd.stdout, Some(9));
}

#[test]
fn valid_invocation_names_one_boot_image() {
    let mut with_bios = config();
    with_bios.bootloader = Some(3);
    let mut with_kernel = config();
    with_kernel.kernel = Some(4);
    for c in [with_bios, with_kernel] {
        let cmd = crosvm_command(&c).unwrap();
        let args = strs(&cmd.args);
        assert!(args.contains(&"--disable-sandbox"));
        let bios = args.contains(&"--bios");
        let kernel = args.last() == Some(&"/proc/self/fd/4");
        assert!(bios != kernel);
    }
}

#[test]
fn disks_keep_their_order_and_flags() {
    let mut c = config();
    c.kernel = Some(3);
    c.log_fd = Some(1);
    c.disks = vec![
        DiskFile { image: 30, writable: true },
        DiskFile { image: 31, writable: false },
        DiskFile { image: 32, writable: true },
    ];
    let cmd = crosvm_command(&c).unwrap();
    assert_eq!(
        strs(&cmd.args[4..]),
        vec![
            "--rwdisk",
            "/proc/self/fd/30",
            "--disk",
            "/proc/self/fd/31",
            "--rwdisk",
            "/proc/self/fd/32",
            "/proc/self/fd/3",
        ]
    );
    assert_eq!(cmd.preserved_fds, vec![30, 31, 32, 3]);
}

#[test]
fn largest_numbers_render_in_decimal() {
    let mut c = config();
    c.cid = u32::MAX;
    c.memory_mib = Some(u32::MAX);
    c.kernel = Some(i32::MAX);
    let cmd = crosvm_command(&c).unwrap();
    assert_eq!(
        strs(&cmd.args),
        vec![
            "run",
            "--disable-sandbox",
            "--cid",
            "4294967295",
            "--mem",
            "4294967295",
            "--serial=type=sink",
            "/proc/self/fd/2147483647",
        ]
    );
}
