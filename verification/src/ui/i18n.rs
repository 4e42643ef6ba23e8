//! Interface texts in English and Arabic.

use vstd::prelude::*;
use vstd::string::StringExecFns;
use crate::state::app_state::Language;

verus! {

/// Translation strings: (key, text) pairs.
#[derive(Debug, Clone)]
pub struct Translations {
    pub strings: Vec<(String, String)>,
}

/// The pairs as character sequences.
pub open spec fn entries_view(v: Seq<(String, String)>) -> Seq<(Seq<char>, Seq<char>)> {
    v.map_values(|p: (String, String)| (p.0@, p.1@))
}

/// The text stored under `key` (the first pair with that key), or the key
/// itself when there is none.
pub open spec fn lookup(entries: Seq<(Seq<char>, Seq<char>)>, key: Seq<char>) -> Seq<char>
    decreases entries.len(),
{
    if entries.len() == 0 {
        key
    } else if entries[0].0 == key {
        entries[0].1
    } else {
        lookup(entries.drop_first(), key)
    }
}

/// The English interface texts.
pub open spec fn english_texts() -> Seq<(Seq<char>, Seq<char>)> {
    seq![
        ("app.title"@, "Sidozdev - USB Bootable Media Creator"@),
        ("app.subtitle"@, "Create bootable USB drives from ISO images"@),
        ("device.title"@, "USB Device"@),
        ("device.select"@, "Select USB Device"@),
        ("device.refresh"@, "Refresh"@),
        ("device.none"@, "No USB device detected"@),
        ("device.name"@, "Name"@),
        ("device.capacity"@, "Capacity"@),
        ("device.free"@, "Free Space"@),
        ("device.interface"@, "Interface"@),
        ("device.id"@, "Device ID"@),
        ("device.warning"@, "WARNING: All data on the selected device will be destroyed!"@),
        ("iso.title"@, "ISO Image"@),
        ("iso.select"@, "Select ISO File"@),
        ("iso.browse"@, "Browse..."@),
        ("iso.info"@, "ISO Information"@),
        ("iso.label"@, "Label"@),
        ("iso.size"@, "Size"@),
        ("iso.type"@, "Type"@),
        ("iso.bootable"@, "Bootable"@),
        ("iso.boot_modes"@, "Boot Modes"@),
        ("iso.architecture"@, "Architecture"@),
        ("iso.hash"@, "Hash"@),
        ("iso.verify"@, "Verify ISO"@),
        ("iso.calculating"@, "Calculating..."@),
        ("options.title"@, "Options"@),
        ("options.boot_mode"@, "Boot Mode"@),
        ("options.partition"@, "Partition Scheme"@),
        ("options.file_system"@, "File System"@),
        ("options.advanced"@, "Advanced Options"@),
        ("options.quick_format"@, "Quick Format"@),
        ("options.verify"@, "Verify After Write"@),
        ("options.bad_blocks"@, "Check Bad Blocks"@),
        ("boot.bios"@, "BIOS (Legacy)"@),
        ("boot.uefi"@, "UEFI"@),
        ("boot.uefi_secure"@, "UEFI + Secure Boot"@),
        ("partition.mbr"@, "MBR"@),
        ("partition.gpt"@, "GPT"@),
        ("fs.fat32"@, "FAT32"@),
        ("fs.ntfs"@, "NTFS"@),
        ("fs.exfat"@, "exFAT"@),
        ("progress.title"@, "Progress"@),
        ("progress.start"@, "Start"@),
        ("progress.cancel"@, "Cancel"@),
        ("progress.status"@, "Status"@),
        ("progress.percentage"@, "Percentage"@),
        ("progress.speed"@, "Speed"@),
        ("progress.eta"@, "ETA"@),
        ("progress.elapsed"@, "Elapsed"@),
        ("progress.writing"@, "Writing..."@),
        ("progress.verifying"@, "Verifying..."@),
        ("progress.completed"@, "Completed!"@),
        ("progress.cancelled"@, "Cancelled"@),
        ("progress.error"@, "Error"@),
        ("logs.title"@, "Logs"@),
        ("logs.clear"@, "Clear"@),
        ("logs.save"@, "Save"@),
        ("logs.level.info"@, "INFO"@),
        ("logs.level.warning"@, "WARNING"@),
        ("logs.level.error"@, "ERROR"@),
        ("logs.level.success"@, "SUCCESS"@),
        ("status.ready"@, "Ready"@),
        ("status.scanning"@, "Scanning devices..."@),
        ("status.validating"@, "Validating ISO..."@),
        ("status.formatting"@, "Formatting..."@),
        ("status.writing"@, "Writing..."@),
        ("status.verifying_write"@, "Verifying write..."@),
        ("status.completed"@, "Operation completed successfully!"@),
        ("status.cancelled"@, "Operation cancelled"@),
        ("status.error"@, "An error occurred"@),
        ("error.no_device"@, "Please select a USB device"@),
        ("error.no_iso"@, "Please select an ISO file"@),
        ("error.device_too_small"@, "Device capacity is too small for the ISO"@),
        ("error.elevation_required"@, "Administrator privileges required"@),
        ("error.write_failed"@, "Write operation failed"@),
        ("error.verify_failed"@, "Verification failed"@),
        ("menu.file"@, "File"@),
        ("menu.settings"@, "Settings"@),
        ("menu.help"@, "Help"@),
        ("menu.about"@, "About"@),
        ("menu.exit"@, "Exit"@),
        ("settings.title"@, "Settings"@),
        ("settings.language"@, "Language"@),
        ("settings.theme"@, "Theme"@),
        ("settings.theme.light"@, "Light"@),
        ("settings.theme.dark"@, "Dark"@),
        ("settings.theme.system"@, "System"@),
        ("about.title"@, "About Sidozdev"@),
        ("about.version"@, "Version"@),
        ("about.description"@, "A professional USB bootable media creation tool built with Rust."@),
        ("about.copyright"@, "Copyright (c) 2024 Sidozdev Team"@),
        ("about.license"@, "Licensed under MIT License"@),
    ]
}

/// The Arabic interface texts.
pub open spec fn arabic_texts() -> Seq<(Seq<char>, Seq<char>)> {
    seq![
        ("app.title"@, "Sidozdev - منشئ وسائط USB قابلة للإقلاع"@),
        ("app.subtitle"@, "إنشاء أقراص USB قابلة للإقلاع من ملفات ISO"@),
        ("device.title"@, "جهاز USB"@),
        ("device.select"@, "اختر جهاز USB"@),
        ("device.refresh"@, "تحديث"@),
        ("device.none"@, "لم يتم اكتشاف أي جهاز USB"@),
        ("device.name"@, "الاسم"@),
        ("device.capacity"@, "السعة"@),
        ("device.free"@, "المساحة الحرة"@),
        ("device.interface"@, "الواجهة"@),
        ("device.id"@, "معرف الجهاز"@),
        ("device.warning"@, "تحذير: سيتم حذف جميع البيانات على الجهاز المحدد!"@),
        ("iso.title"@, "صورة ISO"@),
        ("iso.select"@, "اختر ملف ISO"@),
        ("iso.browse"@, "استعراض..."@),
        ("iso.info"@, "معلومات ISO"@),
        ("iso.label"@, "التسمية"@),
        ("iso.size"@, "الحجم"@),
        ("iso.type"@, "النوع"@),
        ("iso.bootable"@, "قابل للإقلاع"@),
        ("iso.boot_modes"@, "أنظمة الإقلاع"@),
        ("iso.architecture"@, "المعمارية"@),
        ("iso.hash"@, "الهاش"@),
        ("iso.verify"@, "التحقق من ISO"@),
        ("iso.calculating"@, "جاري الحساب..."@),
        ("options.title"@, "الخيارات"@),
        ("options.boot_mode"@, "نظام الإقلاع"@),
        ("options.partition"@, "نظام التقسيم"@),
        ("options.file_system"@, "نظام الملفات"@),
        ("options.advanced"@, "خيارات متقدمة"@),
        ("options.quick_format"@, "تنسيق سريع"@),
        ("options.verify"@, "التحقق بعد الكتابة"@),
        ("options.bad_blocks"@, "فحص الباد سيكتور"@),
        ("boot.bios"@, "BIOS (القديم)"@),
        ("boot.uefi"@, "UEFI"@),
        ("boot.uefi_secure"@, "UEFI + التمهيد الآمن"@),
        ("partition.mbr"@, "MBR"@),
        ("partition.gpt"@, "GPT"@),
        ("fs.fat32"@, "FAT32"@),
        ("fs.ntfs"@, "NTFS"@),
        ("fs.exfat"@, "exFAT"@),
        ("progress.title"@, "التقدم"@),
        ("progress.start"@, "بدء"@),
        ("progress.cancel"@, "إلغاء"@),
        ("progress.status"@, "الحالة"@),
        ("progress.percentage"@, "النسبة"@),
        ("progress.speed"@, "السرعة"@),
        ("progress.eta"@, "الوقت المتبقي"@),
        ("progress.elapsed"@, "الوقت المنقضي"@),
        ("progress.writing"@, "جاري الكتابة..."@),
        ("progress.verifying"@, "جاري التحقق..."@),
        ("progress.completed"@, "اكتملت العملية!"@),
        ("progress.cancelled"@, "تم الإلغاء"@),
        ("progress.error"@, "خطأ"@),
        ("logs.title"@, "السجلات"@),
        ("logs.clear"@, "مسح"@),
        ("logs.save"@, "حفظ"@),
        ("logs.level.info"@, "معلومات"@),
        ("logs.level.warning"@, "تحذير"@),
        ("logs.level.error"@, "خطأ"@),
        ("logs.level.success"@, "نجاح"@),
        ("status.ready"@, "جاهز"@),
        ("status.scanning"@, "جاري فحص الأجهزة..."@),
        ("status.validating"@, "جاري التحقق من ISO..."@),
        ("status.formatting"@, "جاري التنسيق..."@),
        ("status.writing"@, "جاري الكتابة..."@),
        ("status.verifying_write"@, "جاري التحقق من الكتابة..."@),
        ("status.completed"@, "اكتملت العملية بنجاح!"@),
        ("status.cancelled"@, "تم إلغاء العملية"@),
        ("status.error"@, "حدث خطأ"@),
        ("error.no_device"@, "الرجاء اختيار جهاز USB"@),
        ("error.no_iso"@, "الرجاء اختيار ملف ISO"@),
        ("error.device_too_small"@, "سعة الجهاز صغيرة جداً لملف ISO"@),
        ("error.elevation_required"@, "مطلوب صلاحيات المسؤول"@),
        ("error.write_failed"@, "فشلت عملية الكتابة"@),
        ("error.verify_failed"@, "فشل التحقق"@),
        ("menu.file"@, "ملف"@),
        ("menu.settings"@, "إعدادات"@),
        ("menu.help"@, "مساعدة"@),
        ("menu.about"@, "حول"@),
        ("menu.exit"@, "خروج"@),
        ("settings.title"@, "الإعدادات"@),
        ("settings.language"@, "اللغة"@),
        ("settings.theme"@, "السمة"@),
        ("settings.theme.light"@, "فاتح"@),
        ("settings.theme.dark"@, "داكن"@),
        ("settings.theme.system"@, "النظام"@),
        ("about.title"@, "حول Sidozdev"@),
        ("about.version"@, "الإصدار"@),
        ("about.description"@, "أداة احترافية لإنشاء وسائط USB قابلة للإقلاع مبنية بـ Rust."@),
        ("about.copyright"@, "حقوق النشر (c) 2024 فريق Sidozdev"@),
        ("about.license"@, "مرخصة بموجب رخصة MIT"@),
    ]
}

/// The texts for a language.
pub open spec fn language_texts(language: Language) -> Seq<(Seq<char>, Seq<char>)> {
    match language {
        Language::Arabic => arabic_texts(),
        Language::English => english_texts(),
    }
}

impl Translations {
    pub fn new() -> (t: Self)
        ensures
            t.strings@.len() == 0,
    {
        Self { strings: Vec::new() }
    }

    /// The text for `key`, or the key itself.
    pub fn get(&self, key: &str) -> (s: String)
        ensures
            s@ == lookup(entries_view(self.strings@), key@),
    {
        let target = String::from_str(key);
        let mut i: usize = 0;
        assert(entries_view(self.strings@).subrange(0, self.strings@.len() as int) =~= entries_view(self.strings@));
        while i < self.strings.len()
            invariant
                i <= self.strings@.len(),
                target@ == key@,
                lookup(entries_view(self.strings@), key@) == lookup(entries_view(self.strings@).subrange(i as int, self.strings@.len() as int), key@),
            decreases self.strings@.len() - i,
        {
            let ghost rest = entries_view(self.strings@).subrange(i as int, self.strings@.len() as int);
            if self.strings[i].0 == target {
                return self.strings[i].1.clone();
            }
            assert(rest.drop_first() =~= entries_view(self.strings@).subrange(i + 1, self.strings@.len() as int));
            i = i + 1;
        }
        target
    }

    pub fn load(language: Language) -> (t: Self)
        ensures
            entries_view(t.strings@) == language_texts(language),
    {
        match language {
            Language::Arabic => Self::load_arabic(),
            Language::English => Self::load_english(),
        }
    }

    /// The English texts.
    fn load_english() -> (t: Self)
        ensures
            entries_view(t.strings@) == english_texts(),
    {
        let mut strings: Vec<(String, String)> = Vec::new();
        strings.push((String::from_str("app.title"), String::from_str("Sidozdev - USB Bootable Media Creator")));
        strings.push((String::from_str("app.subtitle"), String::from_str("Create bootable USB drives from ISO images")));
        strings.push((String::from_str("device.title"), String::from_str("USB Device")));
        strings.push((String::from_str("device.select"), String::from_str("Select USB Device")));
        strings.push((String::from_str("device.refresh"), String::from_str("Refresh")));
        strings.push((String::from_str("device.none"), String::from_str("No USB device detected")));
        strings.push((String::from_str("device.name"), String::from_str("Name")));
        strings.push((String::from_str("device.capacity"), String::from_str("Capacity")));
        strings.push((String::from_str("device.free"), String::from_str("Free Space")));
        strings.push((String::from_str("device.interface"), String::from_str("Interface")));
        strings.push((String::from_str("device.id"), String::from_str("Device ID")));
        strings.push((String::from_str("device.warning"), String::from_str("WARNING: All data on the selected device will be destroyed!")));
        strings.push((String::from_str("iso.title"), String::from_str("ISO Image")));
        strings.push((String::from_str("iso.select"), String::from_str("Select ISO File")));
        strings.push((String::from_str("iso.browse"), String::from_str("Browse...")));
        strings.push((String::from_str("iso.info"), String::from_str("ISO Information")));
        strings.push((String::from_str("iso.label"), String::from_str("Label")));
        strings.push((String::from_str("iso.size"), String::from_str("Size")));
        strings.push((String::from_str("iso.type"), String::from_str("Type")));
        strings.push((String::from_str("iso.bootable"), String::from_str("Bootable")));
        strings.push((String::from_str("iso.boot_modes"), String::from_str("Boot Modes")));
        strings.push((String::from_str("iso.architecture"), String::from_str("Architecture")));
        strings.push((String::from_str("iso.hash"), String::from_str("Hash")));
        strings.push((String::from_str("iso.verify"), String::from_str("Verify ISO")));
        strings.push((String::from_str("iso.calculating"), String::from_str("Calculating...")));
        strings.push((String::from_str("options.title"), String::from_str("Options")));
        strings.push((String::from_str("options.boot_mode"), String::from_str("Boot Mode")));
        strings.push((String::from_str("options.partition"), String::from_str("Partition Scheme")));
        strings.push((String::from_str("options.file_system"), String::from_str("File System")));
        strings.push((String::from_str("options.advanced"), String::from_str("Advanced Options")));
        strings.push((String::from_str("options.quick_format"), String::from_str("Quick Format")));
        strings.push((String::from_str("options.verify"), String::from_str("Verify After Write")));
        strings.push((String::from_str("options.bad_blocks"), String::from_str("Check Bad Blocks")));
        strings.push((String::from_str("boot.bios"), String::from_str("BIOS (Legacy)")));
        strings.push((String::from_str("boot.uefi"), String::from_str("UEFI")));
        strings.push((String::from_str("boot.uefi_secure"), String::from_str("UEFI + Secure Boot")));
        strings.push((String::from_str("partition.mbr"), String::from_str("MBR")));
        strings.push((String::from_str("partition.gpt"), String::from_str("GPT")));
        strings.push((String::from_str("fs.fat32"), String::from_str("FAT32")));
        strings.push((String::from_str("fs.ntfs"), String::from_str("NTFS")));
        strings.push((String::from_str("fs.exfat"), String::from_str("exFAT")));
        strings.push((String::from_str("progress.title"), String::from_str("Progress")));
        strings.push((String::from_str("progress.start"), String::from_str("Start")));
        strings.push((String::from_str("progress.cancel"), String::from_str("Cancel")));
        strings.push((String::from_str("progress.status"), String::from_str("Status")));
        strings.push((String::from_str("progress.percentage"), String::from_str("Percentage")));
        strings.push((String::from_str("progress.speed"), String::from_str("Speed")));
        strings.push((String::from_str("progress.eta"), String::from_str("ETA")));
        strings.push((String::from_str("progress.elapsed"), String::from_str("Elapsed")));
        strings.push((String::from_str("progress.writing"), String::from_str("Writing...")));
        strings.push((String::from_str("progress.verifying"), String::from_str("Verifying...")));
        strings.push((String::from_str("progress.completed"), String::from_str("Completed!")));
        strings.push((String::from_str("progress.cancelled"), String::from_str("Cancelled")));
        strings.push((String::from_str("progress.error"), String::from_str("Error")));
        strings.push((String::from_str("logs.title"), String::from_str("Logs")));
        strings.push((String::from_str("logs.clear"), String::from_str("Clear")));
        strings.push((String::from_str("logs.save"), String::from_str("Save")));
        strings.push((String::from_str("logs.level.info"), String::from_str("INFO")));
        strings.push((String::from_str("logs.level.warning"), String::from_str("WARNING")));
        strings.push((String::from_str("logs.level.error"), String::from_str("ERROR")));
        strings.push((String::from_str("logs.level.success"), String::from_str("SUCCESS")));
        strings.push((String::from_str("status.ready"), String::from_str("Ready")));
        strings.push((String::from_str("status.scanning"), String::from_str("Scanning devices...")));
        strings.push((String::from_str("status.validating"), String::from_str("Validating ISO...")));
        strings.push((String::from_str("status.formatting"), String::from_str("Formatting...")));
        strings.push((String::from_str("status.writing"), String::from_str("Writing...")));
        strings.push((String::from_str("status.verifying_write"), String::from_str("Verifying write...")));
        strings.push((String::from_str("status.completed"), String::from_str("Operation completed successfully!")));
        strings.push((String::from_str("status.cancelled"), String::from_str("Operation cancelled")));
        strings.push((String::from_str("status.error"), String::from_str("An error occurred")));
        strings.push((String::from_str("error.no_device"), String::from_str("Please select a USB device")));
        strings.push((String::from_str("error.no_iso"), String::from_str("Please select an ISO file")));
        strings.push((String::from_str("error.device_too_small"), String::from_str("Device capacity is too small for the ISO")));
        strings.push((String::from_str("error.elevation_required"), String::from_str("Administrator privileges required")));
        strings.push((String::from_str("error.write_failed"), String::from_str("Write operation failed")));
        strings.push((String::from_str("error.verify_failed"), String::from_str("Verification failed")));
        strings.push((String::from_str("menu.file"), String::from_str("File")));
        strings.push((String::from_str("menu.settings"), String::from_str("Settings")));
        strings.push((String::from_str("menu.help"), String::from_str("Help")));
        strings.push((String::from_str("menu.about"), String::from_str("About")));
        strings.push((String::from_str("menu.exit"), String::from_str("Exit")));
        strings.push((String::from_str("settings.title"), String::from_str("Settings")));
        strings.push((String::from_str("settings.language"), String::from_str("Language")));
        strings.push((String::from_str("settings.theme"), String::from_str("Theme")));
        strings.push((String::from_str("settings.theme.light"), String::from_str("Light")));
        strings.push((String::from_str("settings.theme.dark"), String::from_str("Dark")));
        strings.push((String::from_str("settings.theme.system"), String::from_str("System")));
        strings.push((String::from_str("about.title"), String::from_str("About Sidozdev")));
        strings.push((String::from_str("about.version"), String::from_str("Version")));
        strings.push((String::from_str("about.description"), String::from_str("A professional USB bootable media creation tool built with Rust.")));
        strings.push((String::from_str("about.copyright"), String::from_str("Copyright (c) 2024 Sidozdev Team")));
        strings.push((String::from_str("about.license"), String::from_str("Licensed under MIT License")));
        assert(entries_view(strings@) =~= english_texts());
        Self { strings }
    }
    /// The Arabic texts.
    fn load_arabic() -> (t: Self)
        ensures
            entries_view(t.strings@) == arabic_texts(),
    {
        let mut strings: Vec<(String, String)> = Vec::new();
        strings.push((String::from_str("app.title"), String::from_str("Sidozdev - منشئ وسائط USB قابلة للإقلاع")));
        strings.push((String::from_str("app.subtitle"), String::from_str("إنشاء أقراص USB قابلة للإقلاع من ملفات ISO")));
        strings.push((String::from_str("device.title"), String::from_str("جهاز USB")));
        strings.push((String::from_str("device.select"), String::from_str("اختر جهاز USB")));
        strings.push((String::from_str("device.refresh"), String::from_str("تحديث")));
        strings.push((String::from_str("device.none"), String::from_str("لم يتم اكتشاف أي جهاز USB")));
        strings.push((String::from_str("device.name"), String::from_str("الاسم")));
        strings.push((String::from_str("device.capacity"), String::from_str("السعة")));
        strings.push((String::from_str("device.free"), String::from_str("المساحة الحرة")));
        strings.push((String::from_str("device.interface"), String::from_str("الواجهة")));
        strings.push((String::from_str("device.id"), String::from_str("معرف الجهاز")));
        strings.push((String::from_str("device.warning"), String::from_str("تحذير: سيتم حذف جميع البيانات على الجهاز المحدد!")));
        strings.push((String::from_str("iso.title"), String::from_str("صورة ISO")));
        strings.push((String::from_str("iso.select"), String::from_str("اختر ملف ISO")));
        strings.push((String::from_str("iso.browse"), String::from_str("استعراض...")));
        strings.push((String::from_str("iso.info"), String::from_str("معلومات ISO")));
        strings.push((String::from_str("iso.label"), String::from_str("التسمية")));
        strings.push((String::from_str("iso.size"), String::from_str("الحجم")));
        strings.push((String::from_str("iso.type"), String::from_str("النوع")));
        strings.push((String::from_str("iso.bootable"), String::from_str("قابل للإقلاع")));
        strings.push((String::from_str("iso.boot_modes"), String::from_str("أنظمة الإقلاع")));
        strings.push((String::from_str("iso.architecture"), String::from_str("المعمارية")));
        strings.push((String::from_str("iso.hash"), String::from_str("الهاش")));
        strings.push((String::from_str("iso.verify"), String::from_str("التحقق من ISO")));
        strings.push((String::from_str("iso.calculating"), String::from_str("جاري الحساب...")));
        strings.push((String::from_str("options.title"), String::from_str("الخيارات")));
        strings.push((String::from_str("options.boot_mode"), String::from_str("نظام الإقلاع")));
        strings.push((String::from_str("options.partition"), String::from_str("نظام التقسيم")));
        strings.push((String::from_str("options.file_system"), String::from_str("نظام الملفات")));
        strings.push((String::from_str("options.advanced"), String::from_str("خيارات متقدمة")));
        strings.push((String::from_str("options.quick_format"), String::from_str("تنسيق سريع")));
        strings.push((String::from_str("options.verify"), String::from_str("التحقق بعد الكتابة")));
        strings.push((String::from_str("options.bad_blocks"), String::from_str("فحص الباد سيكتور")));
        strings.push((String::from_str("boot.bios"), String::from_str("BIOS (القديم)")));
        strings.push((String::from_str("boot.uefi"), String::from_str("UEFI")));
        strings.push((String::from_str("boot.uefi_secure"), String::from_str("UEFI + التمهيد الآمن")));
        strings.push((String::from_str("partition.mbr"), String::from_str("MBR")));
        strings.push((String::from_str("partition.gpt"), String::from_str("GPT")));
        strings.push((String::from_str("fs.fat32"), String::from_str("FAT32")));
        strings.push((String::from_str("fs.ntfs"), String::from_str("NTFS")));
        strings.push((String::from_str("fs.exfat"), String::from_str("exFAT")));
        strings.push((String::from_str("progress.title"), String::from_str("التقدم")));
        strings.push((String::from_str("progress.start"), String::from_str("بدء")));
        strings.push((String::from_str("progress.cancel"), String::from_str("إلغاء")));
        strings.push((String::from_str("progress.status"), String::from_str("الحالة")));
        strings.push((String::from_str("progress.percentage"), String::from_str("النسبة")));
        strings.push((String::from_str("progress.speed"), String::from_str("السرعة")));
        strings.push((String::from_str("progress.eta"), String::from_str("الوقت المتبقي")));
        strings.push((String::from_str("progress.elapsed"), String::from_str("الوقت المنقضي")));
        strings.push((String::from_str("progress.writing"), String::from_str("جاري الكتابة...")));
        strings.push((String::from_str("progress.verifying"), String::from_str("جاري التحقق...")));
        strings.push((String::from_str("progress.completed"), String::from_str("اكتملت العملية!")));
        strings.push((String::from_str("progress.cancelled"), String::from_str("تم الإلغاء")));
        strings.push((String::from_str("progress.error"), String::from_str("خطأ")));
        strings.push((String::from_str("logs.title"), String::from_str("السجلات")));
        strings.push((String::from_str("logs.clear"), String::from_str("مسح")));
        strings.push((String::from_str("logs.save"), String::from_str("حفظ")));
        strings.push((String::from_str("logs.level.info"), String::from_str("معلومات")));
        strings.push((String::from_str("logs.level.warning"), String::from_str("تحذير")));
        strings.push((String::from_str("logs.level.error"), String::from_str("خطأ")));
        strings.push((String::from_str("logs.level.success"), String::from_str("نجاح")));
        strings.push((String::from_str("status.ready"), String::from_str("جاهز")));
        strings.push((String::from_str("status.scanning"), String::from_str("جاري فحص الأجهزة...")));
        strings.push((String::from_str("status.validating"), String::from_str("جاري التحقق من ISO...")));
        strings.push((String::from_str("status.formatting"), String::from_str("جاري التنسيق...")));
        strings.push((String::from_str("status.writing"), String::from_str("جاري الكتابة...")));
        strings.push((String::from_str("status.verifying_write"), String::from_str("جاري التحقق من الكتابة...")));
        strings.push((String::from_str("status.completed"), String::from_str("اكتملت العملية بنجاح!")));
        strings.push((String::from_str("status.cancelled"), String::from_str("تم إلغاء العملية")));
        strings.push((String::from_str("status.error"), String::from_str("حدث خطأ")));
        strings.push((String::from_str("error.no_device"), String::from_str("الرجاء اختيار جهاز USB")));
        strings.push((String::from_str("error.no_iso"), String::from_str("الرجاء اختيار ملف ISO")));
        strings.push((String::from_str("error.device_too_small"), String::from_str("سعة الجهاز صغيرة جداً لملف ISO")));
        strings.push((String::from_str("error.elevation_required"), String::from_str("مطلوب صلاحيات المسؤول")));
        strings.push((String::from_str("error.write_failed"), String::from_str("فشلت عملية الكتابة")));
        strings.push((String::from_str("error.verify_failed"), String::from_str("فشل التحقق")));
        strings.push((String::from_str("menu.file"), String::from_str("ملف")));
        strings.push((String::from_str("menu.settings"), String::from_str("إعدادات")));
        strings.push((String::from_str("menu.help"), String::from_str("مساعدة")));
        strings.push((String::from_str("menu.about"), String::from_str("حول")));
        strings.push((String::from_str("menu.exit"), String::from_str("خروج")));
        strings.push((String::from_str("settings.title"), String::from_str("الإعدادات")));
        strings.push((String::from_str("settings.language"), String::from_str("اللغة")));
        strings.push((String::from_str("settings.theme"), String::from_str("السمة")));
        strings.push((String::from_str("settings.theme.light"), String::from_str("فاتح")));
        strings.push((String::from_str("settings.theme.dark"), String::from_str("داكن")));
        strings.push((String::from_str("settings.theme.system"), String::from_str("النظام")));
        strings.push((String::from_str("about.title"), String::from_str("حول Sidozdev")));
        strings.push((String::from_str("about.version"), String::from_str("الإصدار")));
        strings.push((String::from_str("about.description"), String::from_str("أداة احترافية لإنشاء وسائط USB قابلة للإقلاع مبنية بـ Rust.")));
        strings.push((String::from_str("about.copyright"), String::from_str("حقوق النشر (c) 2024 فريق Sidozdev")));
        strings.push((String::from_str("about.license"), String::from_str("مرخصة بموجب رخصة MIT")));
        assert(entries_view(strings@) =~= arabic_texts());
        Self { strings }
    }
}

/// Both languages translate the same keys, in the same order, so a key
/// that has an English text has an Arabic one too.
pub proof fn lemma_languages_share_keys()
    ensures
        english_texts().len() == arabic_texts().len(),
        forall|i: int| 0 <= i < english_texts().len() ==> #[trigger] english_texts()[i].0 == arabic_texts()[i].0,
{
}

/// `key` has an entry in the table.
pub open spec fn has_key(entries: Seq<(Seq<char>, Seq<char>)>, key: Seq<char>) -> bool {
    exists|i: int| 0 <= i < entries.len() && #[trigger] entries[i].0 == key
}

/// The keys the application's panels, menus and dialogs look up.
pub open spec fn interface_keys() -> Seq<Seq<char>> {
    seq![
        "app.title"@,
        "app.subtitle"@,
        "device.title"@,
        "device.refresh"@,
        "device.none"@,
        "device.name"@,
        "device.capacity"@,
        "device.interface"@,
        "device.id"@,
        "device.warning"@,
        "iso.title"@,
        "iso.select"@,
        "iso.browse"@,
        "iso.info"@,
        "iso.label"@,
        "iso.size"@,
        "iso.type"@,
        "iso.bootable"@,
        "iso.boot_modes"@,
        "iso.architecture"@,
        "iso.hash"@,
        "options.title"@,
        "options.boot_mode"@,
        "options.partition"@,
        "options.file_system"@,
        "options.advanced"@,
        "options.quick_format"@,
        "options.verify"@,
        "options.bad_blocks"@,
        "boot.bios"@,
        "boot.uefi"@,
        "boot.uefi_secure"@,
        "partition.mbr"@,
        "partition.gpt"@,
        "fs.fat32"@,
        "fs.ntfs"@,
        "fs.exfat"@,
        "progress.title"@,
        "progress.start"@,
        "progress.cancel"@,
        "progress.status"@,
        "progress.speed"@,
        "progress.eta"@,
        "logs.title"@,
        "logs.clear"@,
        "logs.save"@,
        "logs.level.info"@,
        "logs.level.warning"@,
        "logs.level.error"@,
        "logs.level.success"@,
        "status.ready"@,
        "status.scanning"@,
        "status.validating"@,
        "status.formatting"@,
        "status.writing"@,
        "status.verifying_write"@,
        "status.completed"@,
        "status.cancelled"@,
        "status.error"@,
        "menu.file"@,
        "menu.settings"@,
        "menu.help"@,
        "menu.about"@,
        "menu.exit"@,
        "settings.title"@,
        "settings.language"@,
        "settings.theme"@,
        "settings.theme.light"@,
        "settings.theme.dark"@,
        "settings.theme.system"@,
        "about.title"@,
        "about.version"@,
        "about.description"@,
        "about.copyright"@,
        "about.license"@,
    ]
}

/// Every key the interface looks up has a text in both languages, so no
/// interface text falls back to its key.
pub proof fn lemma_interface_keys_translated()
    ensures
        forall|k: int|
            0 <= k < interface_keys().len() ==> has_key(english_texts(), #[trigger] interface_keys()[k])
                && has_key(arabic_texts(), interface_keys()[k]),
{
    let e = english_texts();
    let a = arabic_texts();
    let ks = interface_keys();
    lemma_languages_share_keys();
    assert forall|k: int| 0 <= k < ks.len() implies has_key(e, #[trigger] ks[k]) && has_key(a, ks[k]) by {
        if k == 0 {
            assert(e[0].0 == ks[0] && a[0].0 == e[0].0);
        } else if k == 1 {
            assert(e[1].0 == ks[1] && a[1].0 == e[1].0);
        } else if k == 2 {
            assert(e[2].0 == ks[2] && a[2].0 == e[2].0);
        } else if k == 3 {
            assert(e[4].0 == ks[3] && a[4].0 == e[4].0);
        } else if k == 4 {
            assert(e[5].0 == ks[4] && a[5].0 == e[5].0);
        } else if k == 5 {
            assert(e[6].0 == ks[5] && a[6].0 == e[6].0);
        } else if k == 6 {
            assert(e[7].0 == ks[6] && a[7].0 == e[7].0);
        } else if k == 7 {
            assert(e[9].0 == ks[7] && a[9].0 == e[9].0);
        } else if k == 8 {
            assert(e[10].0 == ks[8] && a[10].0 == e[10].0);
        } else if k == 9 {
            assert(e[11].0 == ks[9] && a[11].0 == e[11].0);
        } else if k == 10 {
            assert(e[12].0 == ks[10] && a[12].0 == e[12].0);
        } else if k == 11 {
            assert(e[13].0 == ks[11] && a[13].0 == e[13].0);
        } else if k == 12 {
            assert(e[14].0 == ks[12] && a[14].0 == e[14].0);
        } else if k == 13 {
            assert(e[15].0 == ks[13] && a[15].0 == e[15].0);
        } else if k == 14 {
            assert(e[16].0 == ks[14] && a[16].0 == e[16].0);
        } else if k == 15 {
            assert(e[17].0 == ks[15] && a[17].0 == e[17].0);
        } else if k == 16 {
            assert(e[18].0 == ks[16] && a[18].0 == e[18].0);
        } else if k == 17 {
            assert(e[19].0 == ks[17] && a[19].0 == e[19].0);
        } else if k == 18 {
            assert(e[20].0 == ks[18] && a[20].0 == e[20].0);
        } else if k == 19 {
            assert(e[21].0 == ks[19] && a[21].0 == e[21].0);
        } else if k == 20 {
            assert(e[22].0 == ks[20] && a[22].0 == e[22].0);
        } else if k == 21 {
            assert(e[25].0 == ks[21] && a[25].0 == e[25].0);
        } else if k == 22 {
            assert(e[26].0 == ks[22] && a[26].0 == e[26].0);
        } else if k == 23 {
            assert(e[27].0 == ks[23] && a[27].0 == e[27].0);
        } else if k == 24 {
            assert(e[28].0 == ks[24] && a[28].0 == e[28].0);
        } else if k == 25 {
            assert(e[29].0 == ks[25] && a[29].0 == e[29].0);
        } else if k == 26 {
            assert(e[30].0 == ks[26] && a[30].0 == e[30].0);
        } else if k == 27 {
            assert(e[31].0 == ks[27] && a[31].0 == e[31].0);
        } else if k == 28 {
            assert(e[32].0 == ks[28] && a[32].0 == e[32].0);
        } else if k == 29 {
            assert(e[33].0 == ks[29] && a[33].0 == e[33].0);
        } else if k == 30 {
            assert(e[34].0 == ks[30] && a[34].0 == e[34].0);
        } else if k == 31 {
            assert(e[35].0 == ks[31] && a[35].0 == e[35].0);
        } else if k == 32 {
            assert(e[36].0 == ks[32] && a[36].0 == e[36].0);
        } else if k == 33 {
            assert(e[37].0 == ks[33] && a[37].0 == e[37].0);
        } else if k == 34 {
            assert(e[38].0 == ks[34] && a[38].0 == e[38].0);
        } else if k == 35 {
            assert(e[39].0 == ks[35] && a[39].0 == e[39].0);
        } else if k == 36 {
            assert(e[40].0 == ks[36] && a[40].0 == e[40].0);
        } else if k == 37 {
            assert(e[41].0 == ks[37] && a[41].0 == e[41].0);
        } else if k == 38 {
            assert(e[42].0 == ks[38] && a[42].0 == e[42].0);
        } else if k == 39 {
            assert(e[43].0 == ks[39] && a[43].0 == e[43].0);
        } else if k == 40 {
            assert(e[44].0 == ks[40] && a[44].0 == e[44].0);
        } else if k == 41 {
            assert(e[46].0 == ks[41] && a[46].0 == e[46].0);
        } else if k == 42 {
            assert(e[47].0 == ks[42] && a[47].0 == e[47].0);
        } else if k == 43 {
            assert(e[54].0 == ks[43] && a[54].0 == e[54].0);
        } else if k == 44 {
            assert(e[55].0 == ks[44] && a[55].0 == e[55].0);
        } else if k == 45 {
            assert(e[56].0 == ks[45] && a[56].0 == e[56].0);
        } else if k == 46 {
            assert(e[57].0 == ks[46] && a[57].0 == e[57].0);
        } else if k == 47 {
            assert(e[58].0 == ks[47] && a[58].0 == e[58].0);
        } else if k == 48 {
            assert(e[59].0 == ks[48] && a[59].0 == e[59].0);
        } else if k == 49 {
            assert(e[60].0 == ks[49] && a[60].0 == e[60].0);
        } else if k == 50 {
            assert(e[61].0 == ks[50] && a[61].0 == e[61].0);
        } else if k == 51 {
            assert(e[62].0 == ks[51] && a[62].0 == e[62].0);
        } else if k == 52 {
            assert(e[63].0 == ks[52] && a[63].0 == e[63].0);
        } else if k == 53 {
            assert(e[64].0 == ks[53] && a[64].0 == e[64].0);
        } else if k == 54 {
            assert(e[65].0 == ks[54] && a[65].0 == e[65].0);
        } else if k == 55 {
            assert(e[66].0 == ks[55] && a[66].0 == e[66].0);
        } else if k == 56 {
            assert(e[67].0 == ks[56] && a[67].0 == e[67].0);
        } else if k == 57 {
            assert(e[68].0 == ks[57] && a[68].0 == e[68].0);
        } else if k == 58 {
            assert(e[69].0 == ks[58] && a[69].0 == e[69].0);
        } else if k == 59 {
            assert(e[76].0 == ks[59] && a[76].0 == e[76].0);
        } else if k == 60 {
            assert(e[77].0 == ks[60] && a[77].0 == e[77].0);
        } else if k == 61 {
            assert(e[78].0 == ks[61] && a[78].0 == e[78].0);
        } else if k == 62 {
            assert(e[79].0 == ks[62] && a[79].0 == e[79].0);
        } else if k == 63 {
            assert(e[80].0 == ks[63] && a[80].0 == e[80].0);
        } else if k == 64 {
            assert(e[81].0 == ks[64] && a[81].0 == e[81].0);
        } else if k == 65 {
            assert(e[82].0 == ks[65] && a[82].0 == e[82].0);
        } else if k == 66 {
            assert(e[83].0 == ks[66] && a[83].0 == e[83].0);
        } else if k == 67 {
            assert(e[84].0 == ks[67] && a[84].0 == e[84].0);
        } else if k == 68 {
            assert(e[85].0 == ks[68] && a[85].0 == e[85].0);
        } else if k == 69 {
            assert(e[86].0 == ks[69] && a[86].0 == e[86].0);
        } else if k == 70 {
            assert(e[87].0 == ks[70] && a[87].0 == e[87].0);
        } else if k == 71 {
            assert(e[88].0 == ks[71] && a[88].0 == e[88].0);
        } else if k == 72 {
            assert(e[89].0 == ks[72] && a[89].0 == e[89].0);
        } else if k == 73 {
            assert(e[90].0 == ks[73] && a[90].0 == e[90].0);
        } else if k == 74 {
            assert(e[91].0 == ks[74] && a[91].0 == e[91].0);
        }
    }
}

impl Default for Translations {
    fn default() -> (t: Self)
        ensures
            entries_view(t.strings@) == english_texts(),
    {
        Self::load_english()
    }
}

/// The translation table in use, replaced whenever a language is chosen.
pub struct TranslationCache {
    pub loaded: Option<Translations>,
}

impl TranslationCache {
    /// A cache with no table yet.
    pub fn new() -> (c: Self)
        ensures
            c.loaded is None,
    {
        TranslationCache { loaded: None }
    }

    /// Loads the table of `language`, replacing any table loaded before, so
    /// that a change of language takes effect at once.
    pub fn init_translations(&mut self, language: Language)
        ensures
            final(self).loaded matches Some(t) && entries_view(t.strings@) == language_texts(language),
    {
        self.loaded = Some(Translations::load(language));
    }

    /// The text of `key` in the loaded table; the key itself when no table
    /// is loaded or the table lacks it.
    pub fn t(&self, key: &str) -> (s: String)
        ensures
            s@ == match self.loaded {
                Some(t) => lookup(entries_view(t.strings@), key@),
                None => key@,
            },
    {
        match &self.loaded {
            Some(t) => t.get(key),
            None => String::from_str(key),
        }
    }

    /// Whether a table is loaded.
    pub fn is_initialized(&self) -> (b: bool)
        ensures
            b == self.loaded is Some,
    {
        self.loaded.is_some()
    }
}

} // verus!
