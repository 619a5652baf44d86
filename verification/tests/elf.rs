use payload_staging::elf::{starts_with_elf_magic, verify_elf_file, ELF_MAGIC_LEN};
use payload_staging::error::InjectionError;
use payload_staging::source::FileRead;

#[test]
fn magic_length_is_four() {
    assert_eq!(ELF_MAGIC_LEN, 4);
}

#[test]
fn exact_magic_is_accepted() {
    let read = FileRead::Data(vec![0x7f, 0x45, 0x4c, 0x46]);
    assert_eq!(verify_elf_file(&read), Ok(()));
}

#[test]
fn magic_followed_by_more_is_accepted() {
    let read = FileRead::Data(vec![0x7f, b'E', b'L', b'F', 2, 1, 1, 0, 0, 0]);
    assert_eq!(verify_elf_file(&read), Ok(()));
}

#[test]
fn zero_bytes_are_rejected() {
    let read = FileRead::Data(vec![0, 0, 0, 0]);
    assert_eq!(verify_elf_file(&read), Err(InjectionError::FileError));
}

#[test]
fn each_magic_byte_counts() {
    let magic = [0x7fu8, 0x45, 0x4c, 0x46];
    for i in 0..4 {
        let mut head = magic.to_vec();
        head[i] ^= 0x01;
        assert!(!starts_with_elf_magic(&head));
        assert_eq!(verify_elf_file(&FileRead::Data(head)), Err(InjectionError::FileError));
    }
}

#[test]
fn short_files_are_rejected() {
    let magic = [0x7fu8, 0x45, 0x4c, 0x46];
    for n in 0..4 {
        let read = FileRead::Data(magic[..n].to_vec());
        assert_eq!(verify_elf_file(&read), Err(InjectionError::FileError));
    }
}

#[test]
fn magic_not_at_the_start_is_rejected() {
    let read = FileRead::Data(vec![0x00, 0x7f, 0x45, 0x4c, 0x46]);
    assert_eq!(verify_elf_file(&read), Err(InjectionError::FileError));
}

#[test]
fn unopened_file_is_a_file_error() {
    assert_eq!(verify_elf_file(&FileRead::OpenFailed), Err(InjectionError::FileError));
}

#[test]
fn unreadable_file_is_a_file_error() {
    assert_eq!(verify_elf_file(&FileRead::ReadFailed), Err(InjectionError::FileError));
}

#[test]
fn verdict_is_the_same_for_the_head_and_the_whole() {
    let whole: Vec<u8> = vec![0x7f, 0x45, 0x4c, 0x46, 9, 9, 9, 9, 9, 9, 9, 9];
    let head = whole[..ELF_MAGIC_LEN].to_vec();
    assert_eq!(verify_elf_file(&FileRead::Data(whole)), verify_elf_file(&FileRead::Data(head)));
    let other: Vec<u8> = vec![0x7f, 0x45, 0x4c, 0x47, 9, 9];
    let other_head = other[..ELF_MAGIC_LEN].to_vec();
    assert_eq!(
        verify_elf_file(&FileRead::Data(other)),
        verify_elf_file(&FileRead::Data(other_head))
    );
}
