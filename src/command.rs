//! Rendering of the crosvm invocation for a launch configuration.
use vstd::prelude::*;
use vstd::string::*;
use crate::config::{config_error, config_valid, lemma_valid_has_one_image, validate_config, ConfigError, CrosvmConfig, DiskFile, RawFd};

verus! {

/// Where crosvm is installed.
pub const CROSVM_PATH: &'static str = "/apex/com.android.virt/bin/crosvm";

/// The character of a decimal digit.
pub open spec fn digit_char(d: nat) -> char {
    seq!['0', '1', '2', '3', '4', '5', '6', '7', '8', '9'][d as int]
}

/// The decimal digits of `n`, without leading zeros.
pub open spec fn nat_text(n: nat) -> Seq<char>
    decreases n,
{
    if n < 10 {
        seq![digit_char(n)]
    } else {
        nat_text(n / 10).push(digit_char(n % 10))
    }
}

/// The decimal text of `n`, with a leading `-` when it is negative.
pub open spec fn int_text(n: int) -> Seq<char> {
    if n < 0 {
        seq!['-'] + nat_text((-n) as nat)
    } else {
        nat_text(n as nat)
    }
}

/// The path under which a process reaches its own descriptor `fd`.
pub open spec fn fd_path(fd: int) -> Seq<char> {
    "/proc/self/fd/"@ + int_text(fd)
}

/// The texts of a list of strings.
pub open spec fn texts(v: Seq<String>) -> Seq<Seq<char>> {
    v.map_values(|s: String| s@)
}

/// `flag` when `present`, nothing otherwise.
pub open spec fn flag_arg(present: bool, flag: Seq<char>) -> Seq<Seq<char>> {
    if present {
        seq![flag]
    } else {
        seq![]
    }
}

/// `flag` followed by the path of `fd`, when there is one.
pub open spec fn fd_arg(flag: Seq<char>, fd: Option<RawFd>) -> Seq<Seq<char>> {
    match fd {
        Some(f) => seq![flag, fd_path(f as int)],
        None => seq![],
    }
}

/// `flag` followed by the decimal text of `n`, when there is one.
pub open spec fn number_arg(flag: Seq<char>, n: Option<u32>) -> Seq<Seq<char>> {
    match n {
        Some(v) => seq![flag, int_text(v as int)],
        None => seq![],
    }
}

/// The flag that introduces a disk.
pub open spec fn disk_flag(d: DiskFile) -> Seq<char> {
    if d.writable {
        "--rwdisk"@
    } else {
        "--disk"@
    }
}

/// Two arguments per disk, in the order given: its flag and its path.
pub open spec fn disk_args(disks: Seq<DiskFile>) -> Seq<Seq<char>>
    decreases disks.len(),
{
    if disks.len() == 0 {
        seq![]
    } else {
        disk_args(disks.drop_last()) + seq![disk_flag(disks.last()), fd_path(disks.last().image as int)]
    }
}

/// The arguments that are always there.
pub open spec fn fixed_args(c: CrosvmConfig) -> Seq<Seq<char>> {
    seq!["run"@, "--disable-sandbox"@, "--cid"@, int_text(c.cid as int)]
}

/// The console argument: output is discarded when no log descriptor is given.
pub open spec fn console_arg(c: CrosvmConfig) -> Seq<Seq<char>> {
    flag_arg(c.log_fd is None, "--serial=type=sink"@)
}

/// The kernel, passed as a positional argument.
pub open spec fn kernel_arg(c: CrosvmConfig) -> Seq<Seq<char>> {
    match c.kernel {
        Some(k) => seq![fd_path(k as int)],
        None => seq![],
    }
}

/// The parameters argument.
pub open spec fn params_arg(c: CrosvmConfig) -> Seq<Seq<char>> {
    match c.params {
        Some(p) => seq!["--params"@, p@],
        None => seq![],
    }
}

/// The arguments before the images: the fixed ones, protection, memory and console.
pub open spec fn head_args(c: CrosvmConfig) -> Seq<Seq<char>> {
    fixed_args(c) + flag_arg(c.protected, "--protected-vm"@) + number_arg("--mem"@, c.memory_mib)
        + console_arg(c)
}

/// The bootloader, initial ramdisk and parameters arguments.
pub open spec fn image_args(c: CrosvmConfig) -> Seq<Seq<char>> {
    fd_arg("--bios"@, c.bootloader) + fd_arg("--initrd"@, c.initrd) + params_arg(c)
}

/// The arguments given to crosvm for a configuration.
pub open spec fn crosvm_args(c: CrosvmConfig) -> Seq<Seq<char>> {
    head_args(c) + image_args(c) + disk_args(c.disks@) + kernel_arg(c)
}

/// The descriptor, when there is one.
pub open spec fn opt_fd(fd: Option<RawFd>) -> Seq<RawFd> {
    match fd {
        Some(f) => seq![f],
        None => seq![],
    }
}

/// The descriptors of the disks, in order.
pub open spec fn disk_fds(disks: Seq<DiskFile>) -> Seq<RawFd> {
    disks.map_values(|d: DiskFile| d.image)
}

/// The descriptors that crosvm inherits: the indirect files, then every image that an
/// argument names, in the order of the arguments.
pub open spec fn preserved_fds(c: CrosvmConfig) -> Seq<RawFd> {
    c.indirect_files@ + opt_fd(c.bootloader) + opt_fd(c.initrd) + disk_fds(c.disks@) + opt_fd(
        c.kernel,
    )
}

/// What is needed to start crosvm for a configuration.
#[derive(Debug)]
pub struct CrosvmCommand {
    /// Arguments after the program path.
    pub args: Vec<String>,
    /// Descriptors to keep open in the crosvm process.
    pub preserved_fds: Vec<RawFd>,
    /// Descriptor to connect to crosvm's standard output, if any.
    pub stdout: Option<RawFd>,
}

/// Relies on `ToString::to_string` for `i64`, that is its `Display`: the decimal digits, with
/// a leading `-` for a negative number.
#[verifier::external_body]
fn decimal(n: i64) -> (r: String)
    ensures
        r@ == int_text(n as int),
{
    n.to_string()
}

/// Appends a copy of `s` to `args`.
fn push_arg(args: &mut Vec<String>, s: &str)
    ensures
        texts(final(args)@) == texts(old(args)@).push(s@),
{
    push_string(args, String::from_str(s));
}

/// Appends `s` to `args`.
fn push_string(args: &mut Vec<String>, s: String)
    ensures
        texts(final(args)@) == texts(old(args)@).push(s@),
{
    args.push(s);
    assert(texts(args@) =~= texts(old(args)@).push(s@));
}

/// Adds `fd` to `preserved_fds`, and returns a string of the form "/proc/self/fd/N" where N
/// is the descriptor.
fn add_preserved_fd(preserved_fds: &mut Vec<RawFd>, fd: RawFd) -> (r: String)
    ensures
        final(preserved_fds)@ == old(preserved_fds)@.push(fd),
        r@ == fd_path(fd as int),
{
    preserved_fds.push(fd);
    let mut path = String::from_str("/proc/self/fd/");
    let digits = decimal(fd as i64);
    path.append(digits.as_str());
    path
}

/// Appends the arguments that come before the images.
fn render_head(config: &CrosvmConfig, args: &mut Vec<String>)
    ensures
        texts(final(args)@) == texts(old(args)@) + head_args(*config),
{
    let ghost c = *config;
    let ghost start = texts(args@);
    push_arg(args, "run");
    push_arg(args, "--disable-sandbox");
    push_arg(args, "--cid");
    push_string(args, decimal(config.cid as i64));
    assert(texts(args@) =~= start + fixed_args(c));
    if config.protected {
        push_arg(args, "--protected-vm");
    }
    assert(texts(args@) =~= start + fixed_args(c) + flag_arg(c.protected, "--protected-vm"@));
    if let Some(memory_mib) = config.memory_mib {
        push_arg(args, "--mem");
        push_string(args, decimal(memory_mib as i64));
    }
    assert(texts(args@) =~= start + fixed_args(c) + flag_arg(c.protected, "--protected-vm"@)
        + number_arg("--mem"@, c.memory_mib));
    if config.log_fd.is_none() {
        // Ignore console output.
        push_arg(args, "--serial=type=sink");
    }
    assert(texts(args@) =~= start + head_args(c));
}

/// Appends the bootloader, the initial ramdisk and the parameters, and records the descriptors
/// of the images.
fn render_images(config: &CrosvmConfig, args: &mut Vec<String>, fds: &mut Vec<RawFd>)
    ensures
        texts(final(args)@) == texts(old(args)@) + image_args(*config),
        final(fds)@ == old(fds)@ + opt_fd(config.bootloader) + opt_fd(config.initrd),
{
    let ghost c = *config;
    let ghost start = texts(args@);
    let ghost fds_start = fds@;
    if let Some(bootloader) = config.bootloader {
        push_arg(args, "--bios");
        push_string(args, add_preserved_fd(fds, bootloader));
    }
    assert(texts(args@) =~= start + fd_arg("--bios"@, c.bootloader));
    if let Some(initrd) = config.initrd {
        push_arg(args, "--initrd");
        push_string(args, add_preserved_fd(fds, initrd));
    }
    assert(texts(args@) =~= start + fd_arg("--bios"@, c.bootloader) + fd_arg("--initrd"@, c.initrd));
    if let Some(params) = &config.params {
        push_arg(args, "--params");
        push_string(args, params.clone());
    }
    assert(texts(args@) =~= start + image_args(c));
    assert(fds@ =~= fds_start + opt_fd(c.bootloader) + opt_fd(c.initrd));
}

/// Appends a flag and a path for each disk, in order, and records their descriptors.
fn render_disks(disks: &Vec<DiskFile>, args: &mut Vec<String>, fds: &mut Vec<RawFd>)
    ensures
        texts(final(args)@) == texts(old(args)@) + disk_args(disks@),
        final(fds)@ == old(fds)@ + disk_fds(disks@),
{
    let ghost start = texts(args@);
    let ghost fds_start = fds@;
    assert(disks@.subrange(0, 0) =~= Seq::<DiskFile>::empty());
    assert(texts(args@) =~= start + disk_args(disks@.subrange(0, 0)));
    assert(fds@ =~= fds_start + disk_fds(disks@.subrange(0, 0)));
    let n = disks.len();
    let mut i: usize = 0;
    while i < n
        invariant
            n == disks@.len(),
            i <= n,
            texts(args@) == start + disk_args(disks@.subrange(0, i as int)),
            fds@ == fds_start + disk_fds(disks@.subrange(0, i as int)),
        decreases n - i,
    {
        let disk = disks[i];
        let ghost done = disks@.subrange(0, i as int);
        let ghost next = disks@.subrange(0, i + 1);
        assert(next.drop_last() =~= done);
        assert(disk_fds(next) =~= disk_fds(done).push(disk.image));
        push_arg(args, if disk.writable { "--rwdisk" } else { "--disk" });
        push_string(args, add_preserved_fd(fds, disk.image));
        assert(texts(args@) =~= start + disk_args(next));
        assert(fds@ =~= fds_start + disk_fds(next));
        i += 1;
    }
    assert(disks@.subrange(0, n as int) =~= disks@);
}

/// Checks the configuration and renders the crosvm arguments, the descriptors to preserve and
/// the standard output redirection for it.
pub fn crosvm_command(config: &CrosvmConfig) -> (r: Result<CrosvmCommand, ConfigError>)
    ensures
        r is Ok <==> config_valid(*config),
        r matches Err(e) ==> config_error(*config) == Some(e),
        r matches Ok(cmd) ==> texts(cmd.args@) == crosvm_args(*config) && cmd.preserved_fds@
            == preserved_fds(*config) && cmd.stdout == config.log_fd,
{
    validate_config(config)?;
    let ghost c = *config;
    let mut args: Vec<String> = Vec::new();
    assert(texts(args@) =~= Seq::<Seq<char>>::empty());
    render_head(config, &mut args);

    // Keep track of what file descriptors should be mapped to the crosvm process.
    let mut fds: Vec<RawFd> = Vec::new();
    let mut k: usize = 0;
    while k < config.indirect_files.len()
        invariant
            k <= config.indirect_files@.len(),
            fds@ == config.indirect_files@.subrange(0, k as int),
        decreases config.indirect_files@.len() - k,
    {
        fds.push(config.indirect_files[k]);
        assert(fds@ =~= config.indirect_files@.subrange(0, k + 1));
        k += 1;
    }
    assert(fds@ =~= config.indirect_files@);

    render_images(config, &mut args, &mut fds);
    render_disks(&config.disks, &mut args, &mut fds);
    if let Some(kernel) = config.kernel {
        push_string(&mut args, add_preserved_fd(&mut fds, kernel));
    }
    assert(texts(args@) =~= crosvm_args(c));
    assert(fds@ =~= preserved_fds(c));
    Ok(CrosvmCommand { args, preserved_fds: fds, stdout: config.log_fd })
}

/// The arguments of the disks follow the order of the configuration: disk `i` gives the
/// arguments `2 * i` and `2 * i + 1`, its flag (`--rwdisk` when writable, `--disk` otherwise)
/// and then its path.
pub proof fn lemma_disk_args_in_order(disks: Seq<DiskFile>)
    ensures
        disk_args(disks).len() == 2 * disks.len(),
        forall|i: int|
            0 <= i < disks.len() ==> {
                &&& disk_args(disks)[2 * i] == disk_flag(#[trigger] disks[i])
                &&& disk_args(disks)[2 * i + 1] == fd_path(disks[i].image as int)
            },
    decreases disks.len(),
{
    if disks.len() > 0 {
        let rest = disks.drop_last();
        let last = disks.last();
        lemma_disk_args_in_order(rest);
        let tail = seq![disk_flag(last), fd_path(last.image as int)];
        assert(disk_args(disks) == disk_args(rest) + tail);
        let n = rest.len() as int;
        assert forall|i: int| 0 <= i < disks.len() implies {
            &&& disk_args(disks)[2 * i] == disk_flag(#[trigger] disks[i])
            &&& disk_args(disks)[2 * i + 1] == fd_path(disks[i].image as int)
        } by {
            if i < n {
                assert(rest[i] == disks[i]);
                assert(disk_args(rest)[2 * i] == disk_flag(rest[i]));
                assert(disk_args(rest)[2 * i + 1] == fd_path(rest[i].image as int));
                assert(disk_args(disks)[2 * i] == disk_args(rest)[2 * i]);
                assert(disk_args(disks)[2 * i + 1] == disk_args(rest)[2 * i + 1]);
            } else {
                assert(i == n);
                assert(disks[i] == last);
                assert(disk_args(disks)[2 * i] == tail[0]);
                assert(disk_args(disks)[2 * i + 1] == tail[1]);
            }
        }
    }
}

/// The invocation of a valid configuration disables the sandbox and names exactly one of a
/// bootloader (`--bios` and its path) and a kernel (its path, last), never both.
pub proof fn lemma_valid_invocation(c: CrosvmConfig)
    requires
        config_valid(c),
    ensures
        crosvm_args(c)[1] == "--disable-sandbox"@,
        crosvm_args(c).contains("--disable-sandbox"@),
        fd_arg("--bios"@, c.bootloader).len() == 0 <==> kernel_arg(c).len() == 1,
        fd_arg("--bios"@, c.bootloader).len() == 2 <==> kernel_arg(c).len() == 0,
        c.bootloader matches Some(b) ==> image_args(c).subrange(0, 2) == seq![
            "--bios"@,
            fd_path(b as int),
        ],
        c.kernel matches Some(k) ==> crosvm_args(c).last() == fd_path(k as int),
{
    lemma_valid_has_one_image(c);
    assert(crosvm_args(c)[1] == "--disable-sandbox"@);
    if let Some(b) = c.bootloader {
        assert(image_args(c).subrange(0, 2) =~= seq!["--bios"@, fd_path(b as int)]);
    }
}

} // verus!
