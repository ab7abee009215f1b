use redbookmaster::cdrdao::{
    is_available, list_drives, list_drives_args, select_cdrdao, speed_from_choice, version, version_args,
    BurnOptions, CdTextDriver, Cdrdao, CdrdaoError, CommandOutput, CommandRun,
};
use redbookmaster::scan::{parse_scanbus, CdDrive};

#[test]
fn test_default_options() {
    let options = BurnOptions::default();
    assert!(options.eject);
    assert_eq!(options.cd_text_driver, CdTextDriver::Auto);
    assert!(!options.simulate);
}

#[test]
fn test_cd_text_driver_args() {
    assert_eq!(CdTextDriver::Disabled.driver_args(), None);
    assert_eq!(CdTextDriver::Auto.driver_args(), None);
    assert_eq!(
        CdTextDriver::GenericMmcRaw.driver_args(),
        Some(("--driver", "generic-mmc-raw"))
    );
    assert_eq!(
        CdTextDriver::GenericMmcSubchannel.driver_args(),
        Some(("--driver", "generic-mmc:0x10"))
    );
    assert_eq!(
        CdTextDriver::GenericMmcCueSheet.driver_args(),
        Some(("--driver", "generic-mmc:0x20000"))
    );
}

#[test]
fn test_cd_text_driver_from_index() {
    assert_eq!(CdTextDriver::from_index(0), CdTextDriver::Auto);
    assert_eq!(CdTextDriver::from_index(1), CdTextDriver::GenericMmcRaw);
    assert_eq!(CdTextDriver::from_index(2), CdTextDriver::GenericMmcSubchannel);
    assert_eq!(CdTextDriver::from_index(3), CdTextDriver::GenericMmcCueSheet);
    assert_eq!(CdTextDriver::from_index(99), CdTextDriver::Auto); // Invalid defaults to Auto
}

#[test]
fn test_list_drives() {
    // Without a cdrdao probe result there is nothing to list.
    let found: Option<&str> = None;
    if !is_available(&found) {
        return;
    }
    match list_drives(CommandRun::NotInstalled) {
        Ok(drives) => {
            println!("Found {} drives", drives.len());
            for d in &drives {
                println!("  Drive: {} {} ({})", d.vendor, d.model, d.device);
            }
        }
        Err(e) => {
            println!("Error listing drives: {:?}", e);
        }
    }
}

#[test]
fn test_parse_scanbus_macos() {
    // Test parsing macOS cdrdao scanbus output
    let macos_output = "IOService:/AppleARMPE/arm-io@10F00000/AppleH16GFamilyIO/usb-drd2@92280000/AppleT8132USBXHCI@02000000/usb-drd2-port-hs@02100000/Pioneer Blu-ray Drive@02100000/IOUSBHostInterface@0/IOUSBMassStorageInterfaceNub/IOUSBMassStorageDriverNub/IOUSBMassStorageDriver/IOSCSILogicalUnitNub@0/IOSCSIPeripheralDeviceType05/IOBDServices : PIONEER, BD-RW   BDR-XD07, 1.03";

    let drives: Vec<CdDrive> = parse_scanbus(macos_output);

    assert_eq!(drives.len(), 1);
    assert_eq!(drives[0].vendor, "PIONEER");
    assert_eq!(drives[0].model, "BD-RW   BDR-XD07");
    assert!(drives[0].device.contains("IOBDServices"));
}

#[test]
fn test_parse_scanbus_linux() {
    // Test parsing Linux cdrdao scanbus output
    let linux_output = "0,0,0 : SONY, CD-RW  CRX230E, 1.1";

    let drives: Vec<CdDrive> = parse_scanbus(linux_output);

    assert_eq!(drives.len(), 1);
    assert_eq!(drives[0].device, "0,0,0");
    assert_eq!(drives[0].vendor, "SONY");
    assert_eq!(drives[0].model, "CD-RW  CRX230E");
}

fn finished(success: bool, stdout: &str, stderr: &str) -> CommandRun {
    CommandRun::Finished(CommandOutput {
        success,
        stdout: stdout.as_bytes().to_vec(),
        stderr: stderr.as_bytes().to_vec(),
    })
}

#[test]
fn parse_scanbus_skips_lines_without_drives() {
    let out = "Cdrdao version 1.2.4 - (C) Andreas Mueller\n\
               \n\
               0,0,0 : SONY, CD-RW  CRX230E, 1.1\n\
               1,0,0 : NOCOMMA\n\
               just text\n\
               1,1,0 : HL-DT-ST , DVDRAM GH24NSD1 , LG00\r\n";
    let drives = parse_scanbus(out);
    assert_eq!(drives.len(), 2);
    assert_eq!(drives[1].device, "1,1,0");
    assert_eq!(drives[1].vendor, "HL-DT-ST");
    assert_eq!(drives[1].model, "DVDRAM GH24NSD1");
}

#[test]
fn list_drives_reads_both_outputs() {
    let run = finished(true, "", "0,0,0 : SONY, CD-RW  CRX230E, 1.1\n");
    let drives = list_drives(run).unwrap();
    assert_eq!(drives.len(), 1);
    assert_eq!(drives[0].vendor, "SONY");
    assert!(matches!(list_drives(CommandRun::NotInstalled), Err(CdrdaoError::NotInstalled)));
    match list_drives(CommandRun::SpawnFailed("denied".to_string())) {
        Err(CdrdaoError::ExecutionError(m)) => assert_eq!(m, "denied"),
        other => panic!("unexpected {:?}", other),
    }
    match list_drives(finished(false, "", "no bus")) {
        Err(CdrdaoError::CommandFailed(m)) => assert_eq!(m, "no bus"),
        other => panic!("unexpected {:?}", other),
    }
    assert_eq!(list_drives_args(), vec!["scanbus".to_string()]);
}

#[test]
fn version_takes_first_line_of_error_output() {
    assert_eq!(version_args(), vec!["--version".to_string()]);
    let v = version(finished(true, "", "Cdrdao version 1.2.4 - (C) Andreas Mueller\nmore\n"));
    assert_eq!(v.unwrap(), "Cdrdao version 1.2.4 - (C) Andreas Mueller");
    assert_eq!(version(finished(true, "", "")).unwrap(), "unknown");
    assert!(version(finished(false, "x", "y")).is_none());
    assert!(version(CommandRun::NotInstalled).is_none());
    // Invalid UTF-8 on the error output: the standard output is used.
    let run = CommandRun::Finished(CommandOutput {
        success: true,
        stdout: b"cdrdao 1.2.5\n".to_vec(),
        stderr: vec![0xff, 0xfe],
    });
    assert_eq!(version(run).unwrap(), "cdrdao 1.2.5");
}

#[test]
fn lossy_decoding_replaces_invalid_bytes() {
    let burner = Cdrdao::new(BurnOptions::default());
    let run = CommandRun::Finished(CommandOutput {
        success: false,
        stdout: Vec::new(),
        stderr: vec![b'b', b'a', b'd', 0xff],
    });
    match burner.disc_info(run) {
        Err(CdrdaoError::CommandFailed(m)) => assert_eq!(m, "bad\u{FFFD}"),
        other => panic!("unexpected {:?}", other),
    }
    assert_eq!(burner.disc_info(finished(true, "TOC info", "")).unwrap(), "TOC info");
}

#[test]
fn burn_arguments_follow_the_options() {
    let options = BurnOptions {
        device: "/dev/sr1".to_string(),
        speed: 8,
        simulate: false,
        eject: true,
        cd_text_driver: CdTextDriver::GenericMmcRaw,
    };
    let burner = Cdrdao::new(options);
    assert_eq!(burner.device(), "/dev/sr1");
    assert_eq!(
        burner.burn_args("album.toc"),
        vec!["write", "--device", "/dev/sr1", "--driver", "generic-mmc-raw", "--speed", "8", "--eject", "-v", "2", "album.toc"]
    );
    let sim = burner.simulate();
    assert_eq!(
        sim.burn_args("album.toc"),
        vec!["write", "--device", "/dev/sr1", "--driver", "generic-mmc-raw", "--speed", "8", "--simulate", "--eject", "-v", "2", "album.toc"]
    );
    let plain = Cdrdao::new(BurnOptions::default());
    assert_eq!(plain.burn_args("a.toc"), vec!["write", "--device", "/dev/sr0", "--eject", "-v", "2", "a.toc"]);
    assert_eq!(plain.disc_info_args(), vec!["disk-info", "--device", "/dev/sr0"]);
    assert_eq!(plain.blank_args(), vec!["blank", "--device", "/dev/sr0", "--blank-mode", "minimal"]);
}

#[test]
fn burn_and_blank_results() {
    let burner = Cdrdao::new(BurnOptions::default());
    assert!(burner.burn_result(finished(true, "", "")).is_ok());
    match burner.burn_result(finished(false, "", "write error")) {
        Err(CdrdaoError::BurnFailed(m)) => assert_eq!(m, "write error"),
        other => panic!("unexpected {:?}", other),
    }
    assert!(burner.blank(finished(true, "", "")).is_ok());
    match burner.blank(finished(false, "", "no disc")) {
        Err(CdrdaoError::CommandFailed(m)) => assert_eq!(m, "no disc"),
        other => panic!("unexpected {:?}", other),
    }
    assert!(matches!(burner.blank(CommandRun::NotInstalled), Err(CdrdaoError::NotInstalled)));
}

#[test]
fn cdrdao_lookup_takes_first_found() {
    assert_eq!(select_cdrdao(&vec![false, false, true, true, false]), Some("/usr/local/bin/cdrdao"));
    assert_eq!(select_cdrdao(&vec![true]), Some("cdrdao"));
    assert_eq!(select_cdrdao(&vec![false; 5]), None);
    assert!(is_available(&Some("cdrdao")));
}

#[test]
fn driver_labels_and_speed_choices() {
    assert_eq!(CdTextDriver::Auto.label(), CdTextDriver::from_index(0).label());
    assert_ne!(CdTextDriver::Disabled.description(), CdTextDriver::Auto.description());
    assert_eq!(speed_from_choice("Auto (let drive decide)"), 0);
    assert_eq!(speed_from_choice("8x"), 8);
    assert_eq!(speed_from_choice("48x"), 48);
    assert_eq!(speed_from_choice("x"), 0);
    assert_eq!(speed_from_choice("99999999999x"), 0);
}

#[test]
fn parse_scanbus_space_separated_line() {
    let drives = parse_scanbus("0,1,0 : SONY CD-RW  CRX230E \n");
    assert_eq!(drives.len(), 1);
    assert_eq!(drives[0].device, "0,1,0");
    assert_eq!(drives[0].vendor, "SONY");
    assert_eq!(drives[0].model, "CD-RW  CRX230E");
}
