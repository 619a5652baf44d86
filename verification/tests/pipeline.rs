use payload_staging::{
    copy_file_to_tmp, fix_file_context, fix_file_permissions, verify_elf_file, FileRead,
    InjectionError,
};
use payload_staging::fixer::{FixAction, ToolEvent};
use payload_staging::stager::{StageAction, StageEvent};

/// A stand-in for the file system: one file outside the staging directory,
/// and whatever has been copied.
struct Files {
    source_path: String,
    source: Vec<u8>,
    copies: Vec<(String, Vec<u8>)>,
}

impl Files {
    fn read(&self, path: &str) -> Option<Vec<u8>> {
        if path == self.source_path {
            return Some(self.source.clone());
        }
        self.copies.iter().rev().find(|(p, _)| p == path).map(|(_, c)| c.clone())
    }

    fn head(&self, path: &str, count: usize) -> FileRead {
        match self.read(path) {
            Some(content) => FileRead::Data(content.into_iter().take(count).collect()),
            None => FileRead::OpenFailed,
        }
    }

    fn stage(&mut self, path: &str) -> Result<String, InjectionError> {
        let mut event = StageEvent::Start;
        loop {
            event = match copy_file_to_tmp(path, event) {
                StageAction::Resolve { path } => match self.read(&path) {
                    Some(_) => StageEvent::Resolved { canonical: path },
                    None => StageEvent::ResolveFailed,
                },
                StageAction::Copy { from, dest } => match self.read(&from) {
                    Some(content) => {
                        self.copies.push((dest.clone(), content));
                        StageEvent::Copied { dest }
                    }
                    None => StageEvent::CopyFailed,
                },
                StageAction::Done(result) => return result,
            };
        }
    }
}

fn run_fixer(first: FixAction, exit_code: i32, commands: &mut Vec<String>) -> ToolEvent {
    match first {
        FixAction::Run(command) => {
            commands.push(format!(
                "{} {} {}",
                command.program, command.argument, command.file_path
            ));
            ToolEvent::Exited { code: Some(exit_code) }
        }
        FixAction::Done(_) => panic!("a fixer must start by running its tool"),
    }
}

#[test]
fn elf_file_outside_staging_directory_goes_through_the_pipeline() {
    let content = vec![0x7f, 0x45, 0x4c, 0x46, 1, 2, 3, 4, 5, 6];
    let mut files = Files {
        source_path: "/sdcard/Download/libpayload.so".to_string(),
        source: content.clone(),
        copies: Vec::new(),
    };
    let mut commands = Vec::new();

    assert_eq!(verify_elf_file(&files.head("/sdcard/Download/libpayload.so", 4)), Ok(()));

    let staged = files.stage("/sdcard/Download/libpayload.so").unwrap();
    assert_eq!(staged, "/data/local/tmp/libpayload.so");

    let event = run_fixer(fix_file_context(&staged, ToolEvent::Start), 0, &mut commands);
    assert_eq!(fix_file_context(&staged, event), FixAction::Done(Ok(())));
    let event = run_fixer(fix_file_permissions(&staged, ToolEvent::Start), 0, &mut commands);
    assert_eq!(fix_file_permissions(&staged, event), FixAction::Done(Ok(())));

    assert_eq!(
        commands,
        vec![
            "chcon u:object_r:apk_data_file:s0 /data/local/tmp/libpayload.so".to_string(),
            "chmod +r /data/local/tmp/libpayload.so".to_string(),
        ]
    );
    assert_eq!(files.read(&staged), Some(content.clone()));
    assert_eq!(files.source, content);
}

#[test]
fn file_of_zero_bytes_stops_the_pipeline_at_validation() {
    let files = Files {
        source_path: "/sdcard/Download/notes.txt".to_string(),
        source: vec![0, 0, 0, 0, 0, 0],
        copies: Vec::new(),
    };
    let verdict = verify_elf_file(&files.head("/sdcard/Download/notes.txt", 4));
    assert_eq!(verdict, Err(InjectionError::FileError));
    assert!(files.copies.is_empty());
}

#[test]
fn staged_file_is_not_copied_again() {
    let mut files = Files {
        source_path: "/data/local/tmp/libpayload.so".to_string(),
        source: vec![0x7f, 0x45, 0x4c, 0x46],
        copies: Vec::new(),
    };
    let staged = files.stage("/data/local/tmp/libpayload.so").unwrap();
    assert_eq!(staged, "/data/local/tmp/libpayload.so");
    assert!(files.copies.is_empty());
}

#[test]
fn missing_file_fails_staging_with_a_file_error() {
    let mut files = Files {
        source_path: "/sdcard/Download/libpayload.so".to_string(),
        source: vec![0x7f, 0x45, 0x4c, 0x46],
        copies: Vec::new(),
    };
    assert_eq!(files.stage("/sdcard/Download/missing.so"), Err(InjectionError::FileError));
    assert!(files.copies.is_empty());
}

#[test]
fn failing_label_tool_stops_the_pipeline_with_a_command_error() {
    let mut commands = Vec::new();
    let staged = "/data/local/tmp/libpayload.so";
    let event = run_fixer(fix_file_context(staged, ToolEvent::Start), 1, &mut commands);
    assert_eq!(
        fix_file_context(staged, event),
        FixAction::Done(Err(InjectionError::CommandError))
    );
    assert_eq!(commands.len(), 1);
}
