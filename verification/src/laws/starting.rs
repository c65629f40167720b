//! What is made of what a person types, and how a capture is opened and goes on.

use crate::capture;
use crate::capture::{CaptureEvent, CaptureStep, EventModel, StepModel};
use crate::error::{FaultModel, PcapFault, SnifferError};
use crate::prompt;
use crate::text;
use vstd::prelude::*;

verus! {

/// White space is what Unicode calls so: 25 characters and no other.
pub proof fn white_space_is_that_of_unicode(c: char)
    ensures
        prompt::is_white_space(c) <==> seq![
            0x0009int, 0x000A, 0x000B, 0x000C, 0x000D, 0x0020, 0x0085, 0x00A0, 0x1680, 0x2000,
            0x2001, 0x2002, 0x2003, 0x2004, 0x2005, 0x2006, 0x2007, 0x2008, 0x2009, 0x200A, 0x2028,
            0x2029, 0x202F, 0x205F, 0x3000,
        ].contains(c as int),
{
    let all = seq![
        0x0009int, 0x000A, 0x000B, 0x000C, 0x000D, 0x0020, 0x0085, 0x00A0, 0x1680, 0x2000,
        0x2001, 0x2002, 0x2003, 0x2004, 0x2005, 0x2006, 0x2007, 0x2008, 0x2009, 0x200A, 0x2028,
        0x2029, 0x202F, 0x205F, 0x3000,
    ];
    let n = c as int;
    if prompt::is_white_space(c) {
        if 0x09 <= n <= 0x0D {
            assert(all[n - 0x09] == n);
        } else if n == 0x20 {
            assert(all[5] == n);
        } else if n == 0x85 {
            assert(all[6] == n);
        } else if n == 0xA0 {
            assert(all[7] == n);
        } else if n == 0x1680 {
            assert(all[8] == n);
        } else if 0x2000 <= n <= 0x200A {
            assert(all[9 + n - 0x2000] == n);
        } else if n == 0x2028 {
            assert(all[20] == n);
        } else if n == 0x2029 {
            assert(all[21] == n);
        } else if n == 0x202F {
            assert(all[22] == n);
        } else if n == 0x205F {
            assert(all[23] == n);
        } else {
            assert(all[24] == n);
        }
    }
}

/// Whether all of a text is white space.
pub open spec fn is_blank(s: Seq<char>) -> bool {
    forall|i: int| 0 <= i < s.len() ==> prompt::is_white_space(#[trigger] s[i])
}

/// White space behind a text that does not end in any is trimmed away.
proof fn end_is_trimmed(middle: Seq<char>, after: Seq<char>)
    requires
        is_blank(after),
        middle.len() > 0 ==> !prompt::is_white_space(middle.last()),
    ensures
        prompt::trimmed_end(middle + after) == middle,
    decreases after.len(),
{
    let s = middle + after;
    if after.len() == 0 {
        assert(s =~= middle);
    } else {
        assert(s.last() == after.last());
        assert(s.drop_last() =~= middle + after.drop_last());
        end_is_trimmed(middle, after.drop_last());
    }
}

/// What is typed as a filter is taken without the white space around it, and unaltered within:
/// whatever blanks stand before and behind a text that neither begins nor ends with one, the
/// text is what is left.
pub proof fn blanks_around_a_text_are_taken_away(
    before: Seq<char>,
    middle: Seq<char>,
    after: Seq<char>,
)
    requires
        is_blank(before),
        is_blank(after),
        middle.len() > 0 ==> !prompt::is_white_space(middle[0]) && !prompt::is_white_space(
            middle.last(),
        ),
    ensures
        prompt::trimmed(before + middle + after) == middle,
    decreases before.len() + after.len(),
{
    let s = before + middle + after;
    if before.len() > 0 {
        assert(s[0] == before[0]);
        assert(s.skip(1) =~= before.skip(1) + middle + after);
        assert forall|i: int| 0 <= i < before.skip(1).len() implies prompt::is_white_space(
            #[trigger] before.skip(1)[i],
        ) by {
            assert(before.skip(1)[i] == before[i + 1]);
        }
        blanks_around_a_text_are_taken_away(before.skip(1), middle, after);
    } else if middle.len() > 0 {
        assert(s =~= middle + after);
        assert(s[0] == middle[0]);
        end_is_trimmed(middle, after);
    } else if after.len() > 0 {
        assert(s[0] == after[0]);
        assert(s.skip(1) =~= before + middle + after.skip(1));
        assert forall|i: int| 0 <= i < after.skip(1).len() implies prompt::is_white_space(
            #[trigger] after.skip(1)[i],
        ) by {
            assert(after.skip(1)[i] == after[i + 1]);
        }
        blanks_around_a_text_are_taken_away(before, middle, after.skip(1));
    } else {
        assert(s =~= middle);
    }
}

/// Zeros in front of a numeral do not change its value.
proof fn zeros_in_front_are_worth_nothing(zeros: nat, s: Seq<char>)
    ensures
        text::numeral_value(Seq::new(zeros, |i: int| '0') + s, 10) == text::numeral_value(s, 10),
    decreases zeros + s.len(),
{
    let z = Seq::new(zeros, |i: int| '0');
    let all = z + s;
    if s.len() > 0 {
        assert(all.drop_last() =~= z + s.drop_last());
        assert(all.last() == s.last());
        zeros_in_front_are_worth_nothing(zeros, s.drop_last());
    } else if zeros > 0 {
        let fewer = Seq::new((zeros - 1) as nat, |i: int| '0');
        assert(all.drop_last() =~= fewer + s);
        assert(all.last() == '0');
        zeros_in_front_are_worth_nothing((zeros - 1) as nat, s);
    } else {
        assert(all =~= s);
    }
}

/// A typed number chooses the device of that number, however many blanks stand around it, with
/// or without a plus sign, and with any zeros in front. A number of no device chooses the first
/// device, and one that the machine cannot count to is no number.
pub proof fn typed_number_chooses_its_device(
    before: Seq<char>,
    plus: bool,
    zeros: nat,
    n: nat,
    after: Seq<char>,
    count: int,
)
    requires
        is_blank(before),
        is_blank(after),
        count > 0,
    ensures
        ({
            let sign: Seq<char> = if plus {
                seq!['+']
            } else {
                Seq::empty()
            };
            let typed = sign + Seq::new(zeros, |i: int| '0') + text::decimal(n);
            let wanted = if n <= usize::MAX {
                n as int
            } else {
                4
            };
            prompt::chosen(before + typed + after, count) == if wanted < count {
                wanted
            } else {
                0
            }
        }),
{
    let sign: Seq<char> = if plus {
        seq!['+']
    } else {
        Seq::empty()
    };
    let z = Seq::new(zeros, |i: int| '0');
    let digits = z + text::decimal(n);
    let typed = sign + z + text::decimal(n);
    super::decimal_is_digits(n);
    text::numeral_reads_back(n, 10);
    zeros_in_front_are_worth_nothing(zeros, text::decimal(n));
    assert forall|i: int| 0 <= i < digits.len() implies prompt::is_digit(#[trigger] digits[i]) by {
        if i >= zeros {
            assert(digits[i] == text::decimal(n)[i - zeros]);
        }
    }
    assert(typed =~= sign + digits);
    assert(digits[digits.len() - 1] == typed.last());
    assert(!prompt::is_white_space(typed.last())) by {
        assert(prompt::is_digit(digits[digits.len() - 1]));
    }
    assert(!prompt::is_white_space(typed[0])) by {
        if !plus {
            assert(typed[0] == digits[0]);
            assert(prompt::is_digit(digits[0]));
        }
    }
    blanks_around_a_text_are_taken_away(before, typed, after);
    assert(prompt::unsigned_part(typed) =~= digits) by {
        if !plus {
            assert(typed[0] == digits[0]);
            assert(prompt::is_digit(digits[0]));
        }
    }
}

/// A line that is no number chooses the device of number four, or the first where there are not
/// so many: a line of blanks, a sign alone, or anything with a character that is no digit, apart
/// from one plus sign in front.
pub proof fn line_without_a_number_chooses_the_default(input: Seq<char>, i: int, count: int)
    requires
        count > 0,
        ({
            let typed = prompt::trimmed(input);
            ||| typed.len() == 0
            ||| typed == seq!['+']
            ||| 0 <= i < typed.len() && !('0' <= typed[i] <= '9') && !(i == 0 && typed[i] == '+')
        }),
    ensures
        prompt::chosen(input, count) == if 4 < count {
            4int
        } else {
            0
        },
{
    let typed = prompt::trimmed(input);
    let digits = prompt::unsigned_part(typed);
    if typed.len() > 0 && typed != seq!['+'] {
        if typed[0] == '+' {
            assert(digits[i - 1] == typed[i]);
            assert(!prompt::is_digit(digits[i - 1]));
        } else {
            assert(digits[i] == typed[i]);
            assert(!prompt::is_digit(digits[i]));
        }
    }
}

/// A device is known exactly where one of those that were listed has its name, letter by letter.
pub proof fn device_is_known_by_its_name(devices: Seq<String>, name: Seq<char>, i: int)
    ensures
        0 <= i < devices.len() && devices[i]@ == name ==> capture::has_device(devices, name),
        (forall|j: int| 0 <= j < devices.len() ==> (#[trigger] devices[j])@ != name)
            ==> !capture::has_device(devices, name),
{
}

/// Every packet that was read is handed on as it is. What was handed on, and a read that only ran
/// into its timeout, are followed by the next read. Any other failure is told and ends the
/// capture, and so does a channel that nobody listens to, without a word.
pub proof fn capture_goes_on_or_ends(packet: Seq<u8>, fault: FaultModel)
    ensures
        capture::step_after(EventModel::Received(packet)) == StepModel::Deliver(packet),
        capture::step_after(EventModel::Delivered) == StepModel::Read,
        capture::step_after(EventModel::ChannelClosed) == StepModel::Stop,
        fault.timeout_expired ==> capture::step_after(EventModel::Failed(fault))
            == StepModel::Read,
        !fault.timeout_expired ==> capture::step_after(EventModel::Failed(fault))
            == StepModel::Fail("[Capture] 后台抓包遭遇致命错误: "@ + fault.debug),
{
}

/// The mathematical content of what a capture sees and does holds every field.
pub proof fn contents_hold_what_a_capture_sees(
    event: CaptureEvent,
    step: CaptureStep,
    fault: PcapFault,
)
    ensures
        fault@.timeout_expired == fault.timeout_expired,
        fault@.text == fault.text@,
        fault@.debug == fault.debug@,
        match event {
            CaptureEvent::Received(packet) => event@ == EventModel::Received(packet@),
            CaptureEvent::Failed(fault) => event@ == EventModel::Failed(fault@),
            CaptureEvent::Delivered => event@ is Delivered,
            CaptureEvent::ChannelClosed => event@ is ChannelClosed,
        },
        match step {
            CaptureStep::Deliver(packet) => step@ == StepModel::Deliver(packet@),
            CaptureStep::Read => step@ is Read,
            CaptureStep::Fail(text) => step@ == StepModel::Fail(text@),
            CaptureStep::Stop => step@ is Stop,
        },
{
}

/// Packets among what was read: one more read that gave a packet adds that packet at the end, and
/// one that failed adds nothing.
pub proof fn packets_are_those_that_were_read(
    reads: Seq<Result<Seq<u8>, FaultModel>>,
    read: Result<Seq<u8>, FaultModel>,
)
    ensures
        capture::packets_of(Seq::empty()).len() == 0,
        read matches Ok(packet) ==> capture::packets_of(reads.push(read)) == capture::packets_of(
            reads,
        ).push(packet),
        read is Err ==> capture::packets_of(reads.push(read)) == capture::packets_of(reads),
        capture::is_fatal(read) <==> (read is Err && !read->Err_0.timeout_expired),
    decreases reads.len(),
{
    let more = reads.push(read);
    if reads.len() == 0 {
        assert(more.drop_first() =~= Seq::empty());
        reveal_with_fuel(capture::packets_of, 2);
        if let Ok(packet) = read {
            assert(capture::packets_of(more) =~= capture::packets_of(reads).push(packet));
        }
    } else {
        packets_are_those_that_were_read(reads.drop_first(), read);
        assert(more.drop_first() =~= reads.drop_first().push(read));
        assert(more[0] == reads[0]);
        if let Ok(packet) = read {
            assert(capture::packets_of(more) =~= capture::packets_of(reads).push(packet));
        }
    }
}

/// An error is told to a person in its own words, with what the capture library said or the
/// EtherType where there is one.
pub proof fn errors_are_told_in_their_own_words(fault: PcapFault, ether_type: u16)
    ensures
        SnifferError::PcapError(fault).text_of() == "Pcap 底层错误: "@ + fault.text@,
        SnifferError::DeviceNotFound.text_of() == "找不到指定的网卡设备"@,
        SnifferError::InvalidLength.text_of() == "数据包长度不足以解析首部"@,
        SnifferError::UnknownEtherType(ether_type).text_of() == "未知的以太网协议类型: 0x"@
            + text::hex(ether_type as nat),
{
}

} // verus!
