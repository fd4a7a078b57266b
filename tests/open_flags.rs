use uring_rt::open::{open_flags_with, OpenFlagBits, OpenOptions};

fn bits() -> OpenFlagBits {
    OpenFlagBits { rdonly: 0, wronly: 1, rdwr: 2, append: 0o2000, trunc: 0o1000, creat: 0o100, excl: 0o200 }
}

#[test]
fn access_modes() {
    let b = bits();
    assert_eq!(open_flags_with(&OpenOptions::new().read(true), &b), 0);
    assert_eq!(open_flags_with(&OpenOptions::new().write(true), &b), 1);
    assert_eq!(open_flags_with(&OpenOptions::new().read(true).write(true), &b), 2);
    assert_eq!(open_flags_with(&OpenOptions::new(), &b), 0);
}

#[test]
fn create_new_implies_create_and_excl() {
    let b = bits();
    let o = OpenOptions::new().write(true).create_new(true);
    assert_eq!(open_flags_with(&o, &b), 1 | 0o100 | 0o200);
    let o = OpenOptions::new().write(true).create(true).truncate(true).append(true);
    assert_eq!(open_flags_with(&o, &b), 1 | 0o100 | 0o1000 | 0o2000);
}

#[test]
fn flags_use_target_bits() {
    let o = OpenOptions::new().read(true).write(true).create(true);
    assert_eq!(o.flags(), libc::O_RDWR | libc::O_CREAT);
    let o = OpenOptions::new().write(true).create_new(true).append(true);
    assert_eq!(o.flags(), libc::O_WRONLY | libc::O_CREAT | libc::O_EXCL | libc::O_APPEND);
}
