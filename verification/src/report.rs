use vstd::prelude::*;
use vstd::string::*;
use crate::model::{
    AvailabilityResponse, DecodeError, DetailResponse, SpecAvailability, SpecDetail, SpecSlot,
    avails_view,
};

verus! {

/// The views of a sequence of strings.
pub open spec fn strings_view(ss: Seq<String>) -> Seq<Seq<char>> {
    ss.map_values(|s: String| s@)
}

/// The start dates of the slots of one availability, in slot order.
pub open spec fn spec_slot_dates(slots: Seq<SpecSlot>) -> Seq<Seq<char>> {
    slots.map_values(|s: SpecSlot| s.start_date)
}

/// All slot start dates of a detail payload, flattened in availability order
/// and then slot order.
pub open spec fn spec_start_dates(avails: Seq<SpecAvailability>) -> Seq<Seq<char>>
    decreases avails.len(),
{
    if avails.len() == 0 {
        Seq::empty()
    } else {
        spec_start_dates(avails.drop_last()) + spec_slot_dates(avails.last().slots)
    }
}

/// The lines joined by a newline separator.
pub open spec fn spec_joined(times: Seq<Seq<char>>) -> Seq<char>
    decreases times.len(),
{
    if times.len() == 0 {
        Seq::empty()
    } else if times.len() == 1 {
        times[0]
    } else {
        spec_joined(times.drop_last()) + "\n"@ + times.last()
    }
}

/// Whether a zipcode stands in the exclusion set.
pub open spec fn spec_excluded(zipcode: Seq<char>, excluded: Seq<String>) -> bool {
    exists|i: int| 0 <= i < excluded.len() && excluded[i]@ == zipcode
}

/// The one report emitted for a center with open slots: its name, address and
/// zipcode, its absolute URL, and one line per slot start date.
pub open spec fn spec_report_line(d: SpecDetail) -> Seq<char> {
    d.search_result.name_with_title + " at "@ + d.search_result.address + ", "@
        + d.search_result.zipcode + " has slots!\nhttps://doctolib.fr"@ + d.search_result.url
        + "\n"@ + spec_joined(spec_start_dates(d.availabilities))
}

fn is_excluded(zipcode: &String, excluded: &Vec<String>) -> (r: bool)
    ensures
        r == spec_excluded(zipcode@, excluded@),
{
    let mut i: usize = 0;
    while i < excluded.len()
        invariant
            i <= excluded@.len(),
            forall|j: int| 0 <= j < i ==> excluded@[j]@ != zipcode@,
        decreases excluded@.len() - i,
    {
        if excluded[i] == *zipcode {
            proof {
                assert(excluded@[i as int]@ == zipcode@);
            }
            return true;
        }
        i = i + 1;
    }
    false
}

fn flatten_start_dates(avails: &Vec<AvailabilityResponse>) -> (times: Vec<String>)
    ensures
        strings_view(times@) == spec_start_dates(avails_view(avails@)),
{
    let mut times: Vec<String> = Vec::new();
    let mut i: usize = 0;
    while i < avails.len()
        invariant
            i <= avails@.len(),
            strings_view(times@) == spec_start_dates(avails_view(avails@).take(i as int)),
        decreases avails@.len() - i,
    {
        let a = &avails[i];
        let ghost prefix = spec_start_dates(avails_view(avails@).take(i as int));
        let mut j: usize = 0;
        while j < a.slots.len()
            invariant
                j <= a.slots@.len(),
                a == &avails[i as int],
                i < avails@.len(),
                prefix == spec_start_dates(avails_view(avails@).take(i as int)),
                strings_view(times@) == prefix + spec_slot_dates(a@.slots).take(j as int),
            decreases a.slots@.len() - j,
        {
            let ghost before = times@;
            times.push(a.slots[j].start_date.clone());
            proof {
                let sd = spec_slot_dates(a@.slots);
                assert(a@.slots[j as int] == a.slots@[j as int]@);
                assert(sd[j as int] == a.slots@[j as int].start_date@);
                assert(times@ == before.push(a.slots@[j as int].start_date));
                assert(strings_view(times@) =~= strings_view(before).push(
                    a.slots@[j as int].start_date@,
                ));
                assert(sd.take(j + 1) =~= sd.take(j as int).push(sd[j as int]));
                assert(strings_view(times@) =~= prefix + sd.take(j + 1));
            }
            j = j + 1;
        }
        proof {
            let av = avails_view(avails@);
            assert(spec_slot_dates(a@.slots).take(a.slots@.len() as int) =~= spec_slot_dates(
                a@.slots,
            ));
            assert(av.take(i + 1).drop_last() =~= av.take(i as int));
            assert(av.take(i + 1).last() == a@);
            assert(strings_view(times@) == spec_start_dates(av.take(i + 1)));
        }
        i = i + 1;
    }
    proof {
        assert(avails_view(avails@).take(avails@.len() as int) =~= avails_view(avails@));
    }
    times
}

fn join_newline(times: &Vec<String>) -> (r: String)
    ensures
        r@ == spec_joined(strings_view(times@)),
{
    let mut s = String::new();
    let mut i: usize = 0;
    while i < times.len()
        invariant
            i <= times@.len(),
            s@ == spec_joined(strings_view(times@).take(i as int)),
        decreases times@.len() - i,
    {
        if i > 0 {
            s.append("\n");
        }
        s.append(times[i].as_str());
        proof {
            let t = strings_view(times@);
            assert(t.take(i + 1).drop_last() =~= t.take(i as int));
            assert(t.take(i + 1).last() == t[i as int]);
            assert(t[i as int] == times@[i as int]@);
            assert(s@ =~= spec_joined(t.take(i + 1)));
        }
        i = i + 1;
    }
    proof {
        assert(strings_view(times@).take(times@.len() as int) =~= strings_view(times@));
    }
    s
}

/// Decides what to report for one detail fetch: a center in the exclusion set
/// or without any open slot is suppressed; a failed decode produces nothing
/// here (the caller logs it); otherwise the one report line is produced.
pub fn log_result(
    detail_result: Result<DetailResponse, DecodeError>,
    exclude_postal_codes: &Vec<String>,
) -> (r: Option<String>)
    ensures
        (r is Some <==> (detail_result matches Ok(d) && !spec_excluded(
            d@.search_result.zipcode,
            exclude_postal_codes@,
        ) && spec_start_dates(d@.availabilities).len() > 0)),
        r matches Some(line) ==> (detail_result matches Ok(d) && line@ == spec_report_line(d@)),
{
    match detail_result {
        Err(_) => None,
        Ok(d) => {
            if is_excluded(&d.search_result.zipcode, exclude_postal_codes) {
                None
            } else {
                let times = flatten_start_dates(&d.availabilities);
                if times.len() == 0 {
                    proof {
                        assert(strings_view(times@).len() == 0);
                    }
                    None
                } else {
                    let joined = join_newline(&times);
                    let mut line = String::new();
                    line.append(d.search_result.name_with_title.as_str());
                    line.append(" at ");
                    line.append(d.search_result.address.as_str());
                    line.append(", ");
                    line.append(d.search_result.zipcode.as_str());
                    line.append(" has slots!\nhttps://doctolib.fr");
                    line.append(d.search_result.url.as_str());
                    line.append("\n");
                    line.append(joined.as_str());
                    proof {
                        assert(line@ =~= spec_report_line(d@));
                    }
                    Some(line)
                }
            }
        },
    }
}

} // verus!
